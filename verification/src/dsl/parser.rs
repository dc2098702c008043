//! The parser: builds the syntax tree of a token stream by recursive
//! descent, or reports the first syntax error it meets.
//!
//! Every parsing routine is stated as a spec function of the input text, the
//! tokens and the position it starts at (`*_parse`), returning a `Parsed`:
//! the node built and the position after it, the syntax error, or `Stuck`
//! where the routine could not go on at all (a token whose byte span does not
//! lie on character boundaries of the input). The executable parser is proved
//! to compute
//! exactly these functions.
use vstd::prelude::*;
use vstd::string::*;
use crate::dsl::token::{Token, TokenType, debug_name, display_name};
use crate::tui::errors::{SyntaxError, SyntaxErrorV, friendly_for_completion, make_user_friendly_for_completion};
use crate::text::{span_fits, span_ok, span_text, span_string, seq_contains, str_contains, str_lower, to_lower, str_eq, all_ascii, ascii_lower};
use crate::dsl::words::{
    binop_words, binop_words_vec, condition_phrases, condition_phrases_vec, condition_words,
    condition_words6, condition_words6_vec, condition_words_vec, course_context,
    course_context_vec, course_next, course_next_vec, day_names, day_names_vec, entities,
    entities_next, entities_next_vec, entities_short, entities_short_vec, entities_vec,
    hours_word, hours_word_vec, logical_ops, logical_ops_vec, numeric_binops, numeric_binops_vec,
    query_end, query_end_vec, section_context, section_context_vec, section_next,
    section_next_vec, start_end, start_end_vec, string_conditions, string_conditions_vec,
    to_word, to_word_vec, and_to_words, and_to_words_vec, type_word, type_word_vec, value_fixes, value_fixes_vec, value_kinds,
    value_kinds_vec,
};

verus! {

broadcast use crate::dsl::token::lemma_token_mk;

// ---------------------------------------------------------------------------
// Syntax trees
// ---------------------------------------------------------------------------

/// Node types of the syntax tree.
#[derive(Clone, Copy, PartialEq, Eq, Structural, Debug)]
pub enum NodeType {
    T(TokenType),
    Query,
    LogicalTerm,
    LogicalFactor,
    EntityQuery,
    ProfessorQuery,
    CourseQuery,
    SubjectQuery,
    SectionQuery,
    NumberQuery,
    TitleQuery,
    DescriptionQuery,
    CreditHoursQuery,
    PrereqsQuery,
    CoreqsQuery,
    EnrollmentCapQuery,
    InstructionMethodQuery,
    CampusQuery,
    EnrollmentQuery,
    FullQuery,
    MeetingTypeQuery,
    TimeQuery,
    TimeRange,
    DayQuery,
    Time,
    Condition,
    Binop,
    StringList,
    String,
    Integer,
    Identifier,
    EmailIdentifier,
}

/// The printed name of a node type: the token kind's debug name for a token
/// node, the variant's name otherwise.
pub open spec fn node_type_name(n: NodeType) -> Seq<char> {
    match n {
        NodeType::T(t) => debug_name(t),
        NodeType::Query => "Query"@,
        NodeType::LogicalTerm => "LogicalTerm"@,
        NodeType::LogicalFactor => "LogicalFactor"@,
        NodeType::EntityQuery => "EntityQuery"@,
        NodeType::ProfessorQuery => "ProfessorQuery"@,
        NodeType::CourseQuery => "CourseQuery"@,
        NodeType::SubjectQuery => "SubjectQuery"@,
        NodeType::SectionQuery => "SectionQuery"@,
        NodeType::NumberQuery => "NumberQuery"@,
        NodeType::TitleQuery => "TitleQuery"@,
        NodeType::DescriptionQuery => "DescriptionQuery"@,
        NodeType::CreditHoursQuery => "CreditHoursQuery"@,
        NodeType::PrereqsQuery => "PrereqsQuery"@,
        NodeType::CoreqsQuery => "CoreqsQuery"@,
        NodeType::EnrollmentCapQuery => "EnrollmentCapQuery"@,
        NodeType::InstructionMethodQuery => "InstructionMethodQuery"@,
        NodeType::CampusQuery => "CampusQuery"@,
        NodeType::EnrollmentQuery => "EnrollmentQuery"@,
        NodeType::FullQuery => "FullQuery"@,
        NodeType::MeetingTypeQuery => "MeetingTypeQuery"@,
        NodeType::TimeQuery => "TimeQuery"@,
        NodeType::TimeRange => "TimeRange"@,
        NodeType::DayQuery => "DayQuery"@,
        NodeType::Time => "Time"@,
        NodeType::Condition => "Condition"@,
        NodeType::Binop => "Binop"@,
        NodeType::StringList => "StringList"@,
        NodeType::String => "String"@,
        NodeType::Integer => "Integer"@,
        NodeType::Identifier => "Identifier"@,
        NodeType::EmailIdentifier => "EmailIdentifier"@,
    }
}

impl NodeType {
    /// The printed name of the node type.
    pub fn to_string(&self) -> (r: String)
        ensures
            r@ == node_type_name(*self),
    {
        match self {
            NodeType::T(t) => t.debug_string(),
            NodeType::Query => "Query".to_string(),
            NodeType::LogicalTerm => "LogicalTerm".to_string(),
            NodeType::LogicalFactor => "LogicalFactor".to_string(),
            NodeType::EntityQuery => "EntityQuery".to_string(),
            NodeType::ProfessorQuery => "ProfessorQuery".to_string(),
            NodeType::CourseQuery => "CourseQuery".to_string(),
            NodeType::SubjectQuery => "SubjectQuery".to_string(),
            NodeType::SectionQuery => "SectionQuery".to_string(),
            NodeType::NumberQuery => "NumberQuery".to_string(),
            NodeType::TitleQuery => "TitleQuery".to_string(),
            NodeType::DescriptionQuery => "DescriptionQuery".to_string(),
            NodeType::CreditHoursQuery => "CreditHoursQuery".to_string(),
            NodeType::PrereqsQuery => "PrereqsQuery".to_string(),
            NodeType::CoreqsQuery => "CoreqsQuery".to_string(),
            NodeType::EnrollmentCapQuery => "EnrollmentCapQuery".to_string(),
            NodeType::InstructionMethodQuery => "InstructionMethodQuery".to_string(),
            NodeType::CampusQuery => "CampusQuery".to_string(),
            NodeType::EnrollmentQuery => "EnrollmentQuery".to_string(),
            NodeType::FullQuery => "FullQuery".to_string(),
            NodeType::MeetingTypeQuery => "MeetingTypeQuery".to_string(),
            NodeType::TimeQuery => "TimeQuery".to_string(),
            NodeType::TimeRange => "TimeRange".to_string(),
            NodeType::DayQuery => "DayQuery".to_string(),
            NodeType::Time => "Time".to_string(),
            NodeType::Condition => "Condition".to_string(),
            NodeType::Binop => "Binop".to_string(),
            NodeType::StringList => "StringList".to_string(),
            NodeType::String => "String".to_string(),
            NodeType::Integer => "Integer".to_string(),
            NodeType::Identifier => "Identifier".to_string(),
            NodeType::EmailIdentifier => "EmailIdentifier".to_string(),
        }
    }
}

/// A node of the syntax tree.
#[derive(Debug)]
pub struct TreeNode {
    pub children: Vec<TreeNode>,
    pub node_type: NodeType,
    pub lexical_token: Option<Token>,
    pub node_content: String,
}

/// The mathematical value of a syntax-tree node.
pub ghost struct SNode {
    pub node_type: NodeType,
    pub content: Seq<char>,
    pub token: Option<Token>,
    pub children: Seq<SNode>,
}

/// The value of a node, its children taken recursively.
pub open spec fn node_view(n: TreeNode) -> SNode
    decreases n,
{
    SNode {
        node_type: n.node_type,
        content: n.node_content@,
        token: n.lexical_token,
        children: Seq::new(
            n.children@.len(),
            |i: int|
                if 0 <= i < n.children@.len() {
                    node_view(n.children@[i])
                } else {
                    arbitrary()
                },
        ),
    }
}

impl View for TreeNode {
    type V = SNode;

    open spec fn view(&self) -> SNode {
        node_view(*self)
    }
}

/// The parts of a node's value are those of the node, its children taken by
/// their values.
pub proof fn lemma_node_parts(n: TreeNode)
    ensures
        n@.node_type == n.node_type,
        n@.content == n.node_content@,
        n@.token == n.lexical_token,
        n@.children.len() == n.children@.len(),
        forall|i: int| 0 <= i < n.children@.len() ==> #[trigger] n@.children[i] == n.children@[i]@,
{
}

/// The node with the given parts.
pub open spec fn mk_node(nt: NodeType, content: Seq<char>, tok: Option<Token>, kids: Seq<SNode>) -> SNode {
    SNode { node_type: nt, content, token: tok, children: kids }
}

/// A node without children.
pub open spec fn leaf(nt: NodeType, content: Seq<char>, tok: Option<Token>) -> SNode {
    mk_node(nt, content, tok, Seq::empty())
}

/// A node with one child.
pub open spec fn node1(nt: NodeType, content: Seq<char>, tok: Option<Token>, a: SNode) -> SNode {
    mk_node(nt, content, tok, Seq::empty().push(a))
}

/// A node with two children.
pub open spec fn node2(nt: NodeType, content: Seq<char>, tok: Option<Token>, a: SNode, b: SNode) -> SNode {
    mk_node(nt, content, tok, Seq::empty().push(a).push(b))
}

/// A node with three children.
pub open spec fn node3(
    nt: NodeType,
    content: Seq<char>,
    tok: Option<Token>,
    a: SNode,
    b: SNode,
    c: SNode,
) -> SNode {
    mk_node(nt, content, tok, Seq::empty().push(a).push(b).push(c))
}

impl TreeNode {
    /// A node without children.
    fn new(node_type: NodeType, node_content: String, lexical_token: Option<Token>) -> (r: TreeNode)
        ensures
            r@ == leaf(node_type, node_content@, lexical_token),
    {
        let r = TreeNode { children: Vec::new(), node_type, lexical_token, node_content };
        assert(r@.children =~= Seq::<SNode>::empty());
        r
    }

    /// A node with one child.
    fn with1(node_type: NodeType, node_content: String, lexical_token: Option<Token>, a: TreeNode) -> (r: TreeNode)
        ensures
            r@ == node1(node_type, node_content@, lexical_token, a@),
    {
        let mut kids: Vec<TreeNode> = Vec::new();
        kids.push(a);
        let r = TreeNode { children: kids, node_type, lexical_token, node_content };
        assert(r@.children =~= Seq::<SNode>::empty().push(a@));
        r
    }

    /// A node with two children.
    fn with2(
        node_type: NodeType,
        node_content: String,
        lexical_token: Option<Token>,
        a: TreeNode,
        b: TreeNode,
    ) -> (r: TreeNode)
        ensures
            r@ == node2(node_type, node_content@, lexical_token, a@, b@),
    {
        let mut kids: Vec<TreeNode> = Vec::new();
        kids.push(a);
        kids.push(b);
        let r = TreeNode { children: kids, node_type, lexical_token, node_content };
        assert(r@.children =~= Seq::<SNode>::empty().push(a@).push(b@));
        r
    }

    /// A node with three children.
    fn with3(
        node_type: NodeType,
        node_content: String,
        lexical_token: Option<Token>,
        a: TreeNode,
        b: TreeNode,
        c: TreeNode,
    ) -> (r: TreeNode)
        ensures
            r@ == node3(node_type, node_content@, lexical_token, a@, b@, c@),
    {
        let mut kids: Vec<TreeNode> = Vec::new();
        kids.push(a);
        kids.push(b);
        kids.push(c);
        let r = TreeNode { children: kids, node_type, lexical_token, node_content };
        assert(r@.children =~= Seq::<SNode>::empty().push(a@).push(b@).push(c@));
        r
    }
}

/// The syntax tree of a query.
#[derive(Debug)]
pub struct Ast {
    pub head: Option<TreeNode>,
}

impl View for Ast {
    type V = Option<SNode>;

    /// The value of the root node, if there is one.
    open spec fn view(&self) -> Option<SNode> {
        match self.head {
            Some(h) => Some(h@),
            None => None,
        }
    }
}

impl Ast {
    /// The empty tree.
    fn new() -> (r: Ast)
        ensures
            r.head is None,
    {
        Ast { head: None }
    }
}

// ---------------------------------------------------------------------------
// Results of the parsing routines
// ---------------------------------------------------------------------------

/// What a parsing routine yields: the node and the position after it, the
/// syntax error with the tokens it concerns, or `Stuck`.
pub ghost enum Parsed {
    Node(SNode, int),
    Error(SyntaxErrorV, Seq<Token>),
    Stuck,
}

/// The text of a token in the input, when its span can be sliced out.
pub open spec fn lexeme(inp: Seq<char>, t: Token) -> Option<Seq<char>> {
    if span_ok(inp, t.start() as int, t.end() as int) {
        Some(span_text(inp, t.start() as int, t.end() as int))
    } else {
        None
    }
}

/// A token described by its kind and its text: `KIND ('text')`.
pub open spec fn tok_desc(inp: Seq<char>, t: Token) -> Option<Seq<char>> {
    match lexeme(inp, t) {
        Some(l) => Some(display_name(t.kind()) + " ('"@ + l + "')"@),
        None => None,
    }
}

/// The one-token sequence.
pub open spec fn one(t: Token) -> Seq<Token> {
    Seq::empty().push(t)
}

/// A `MissingToken` error.
pub open spec fn missing(msg: Seq<char>) -> Parsed {
    Parsed::Error(SyntaxErrorV::MissingToken(msg), Seq::empty())
}

/// An `ExpectedAfter` error.
pub open spec fn expected_after(expected: Seq<Seq<char>>, after: Seq<char>, position: int, toks: Seq<Token>) -> Parsed {
    Parsed::Error(SyntaxErrorV::ExpectedAfter { expected, after, position: position as usize }, toks)
}

/// An `InvalidContext` error about token `t`, described by `desc` (stuck when
/// the description needs text that cannot be sliced out).
pub open spec fn wrong_here(desc: Option<Seq<char>>, context: Seq<char>, suggestions: Seq<Seq<char>>, t: Token) -> Parsed {
    match desc {
        Some(d) => Parsed::Error(
            SyntaxErrorV::InvalidContext { token: d, context, suggestions },
            one(t),
        ),
        None => Parsed::Stuck,
    }
}

/// Token kinds that compare numbers.
pub open spec fn is_binop(k: TokenType) -> bool {
    match k {
        TokenType::Equals | TokenType::NotEquals | TokenType::LessThan | TokenType::GreaterThan
        | TokenType::LessEqual | TokenType::GreaterEqual | TokenType::Equal
        | TokenType::EqualsWord | TokenType::Is | TokenType::Not | TokenType::Does
        | TokenType::Less | TokenType::Than | TokenType::Greater | TokenType::Least
        | TokenType::Most | TokenType::More | TokenType::Fewer => true,
        _ => false,
    }
}

/// Token kinds that are string conditions on their own.
pub open spec fn is_plain_condition(k: TokenType) -> bool {
    match k {
        TokenType::Equals | TokenType::NotEquals | TokenType::Contains | TokenType::Has
        | TokenType::Is | TokenType::Equal | TokenType::EqualsWord | TokenType::Does
        | TokenType::DoesNotEqual => true,
        _ => false,
    }
}

/// Failures of the executable parsing routines.
enum Failure {
    Syntax(SyntaxError, Vec<Token>),
    Stuck,
}

/// The value of an executable parsing result, given the position after it.
spec fn result_view(r: Result<TreeNode, Failure>, after: usize) -> Parsed {
    match r {
        Ok(n) => Parsed::Node(n@, after as int),
        Err(Failure::Syntax(e, v)) => Parsed::Error(e@, v@),
        Err(Failure::Stuck) => Parsed::Stuck,
    }
}

/// A successful routine has consumed at least one token and stays within
/// the tokens.
spec fn advanced(r: Result<TreeNode, Failure>, before: usize, after: usize, n: int) -> bool {
    r is Ok ==> before < after <= n
}

fn fail_missing(msg: &str) -> (r: Failure)
    ensures
        result_view(Err(r), 0) == missing(msg@),
{
    Failure::Syntax(SyntaxError::MissingToken(msg.to_string()), Vec::new())
}

fn fail_expected(expected: Vec<String>, after: &str, position: usize, toks: Vec<Token>) -> (r: Failure)
    ensures
        result_view(Err(r), 0) == expected_after(expected.deep_view(), after@, position as int, toks@),
{
    Failure::Syntax(SyntaxError::ExpectedAfter { expected, after: after.to_string(), position }, toks)
}

fn one_token(t: Token) -> (v: Vec<Token>)
    ensures
        v@ == one(t),
{
    let mut v: Vec<Token> = Vec::new();
    v.push(t);
    v
}

fn fail_here(desc: Option<String>, context: &str, suggestions: Vec<String>, t: Token) -> (r: Failure)
    ensures
        result_view(Err(r), 0) == wrong_here(
            match desc { Some(d) => Some(d@), None => None },
            context@,
            suggestions.deep_view(),
            t,
        ),
{
    match desc {
        Some(d) => Failure::Syntax(
            SyntaxError::InvalidContext { token: d, context: context.to_string(), suggestions },
            one_token(t),
        ),
        None => Failure::Stuck,
    }
}

/// The parser of the query language.
pub struct Parser {
    input_string: String,
    ast: Ast,
    token_pointer: usize,
}

impl Parser {
    /// The input text the token spans refer to.
    pub closed spec fn input(self) -> Seq<char> {
        self.input_string@
    }

    /// The token position reached.
    pub closed spec fn position(self) -> usize {
        self.token_pointer
    }

    /// Whether no syntax tree has been built yet.
    pub closed spec fn tree_is_empty(self) -> bool {
        self.ast.head is None
    }

    /// A parser for tokens of the given input text, with no tree built and
    /// no token read yet.
    pub fn new(input_string: String) -> (r: Parser)
        ensures
            r.input() == input_string@,
            r.position() == 0,
            r.tree_is_empty(),
    {
        Parser { input_string, ast: Ast::new(), token_pointer: 0 }
    }

    /// The text of a token (`None` where its span cannot be sliced out).
    fn get_lexeme(&self, token: &Token) -> (r: Option<String>)
        ensures
            r is None <==> lexeme(self.input_string@, *token) is None,
            r is Some ==> lexeme(self.input_string@, *token) == Some(r.unwrap()@),
    {
        let s = self.input_string.as_str();
        if span_fits(s, token.get_start(), token.get_end()) {
            Some(span_string(s, token.get_start(), token.get_end()))
        } else {
            None
        }
    }

    /// Whether the text of a token, in lower case, is `w`.
    pub fn word_is(&self, token: &Token, w: &str) -> (b: bool)
        ensures
            b == word_is(self.input(), *token, w@),
            lexeme(self.input(), *token) matches Some(l) ==> (all_ascii(l) ==> (b == (l.map_values(
                |c: char| ascii_lower(c),
            ) == w@))),
    {
        match self.get_lexeme(token) {
            Some(l) => {
                let lower = to_lower(l.as_str());
                str_eq(lower.as_str(), w)
            },
            None => false,
        }
    }

    /// `KIND ('text')` for a token.
    fn describe(&self, token: &Token) -> (r: Option<String>)
        ensures
            r is None <==> tok_desc(self.input_string@, *token) is None,
            r is Some ==> tok_desc(self.input_string@, *token) == Some(r.unwrap()@),
    {
        match self.get_lexeme(token) {
            Some(l) => {
                let mut d = token.get_token_type().to_string();
                d.append(" ('");
                d.append(l.as_str());
                d.append("')");
                Some(d)
            },
            None => None,
        }
    }

    /// Whether a token kind compares numbers.
    fn is_valid_binop_token(token_type: &TokenType) -> (r: bool)
        ensures
            r == is_binop(*token_type),
    {
        match token_type {
            TokenType::Equals | TokenType::NotEquals | TokenType::LessThan
            | TokenType::GreaterThan | TokenType::LessEqual | TokenType::GreaterEqual
            | TokenType::Equal | TokenType::EqualsWord | TokenType::Is | TokenType::Not
            | TokenType::Does | TokenType::Less | TokenType::Than | TokenType::Greater
            | TokenType::Least | TokenType::Most | TokenType::More | TokenType::Fewer => true,
            _ => false,
        }
    }
}

// ---------------------------------------------------------------------------
// Conditions, operators and values
// ---------------------------------------------------------------------------

/// `<condition> ::= "=" | "!=" | "contains" | "has" | "starts with" |
/// "ends with" | "is" | "equals" | "not equals" | "does not equal"`, read at
/// position `p`; `not equals` and `does not equal` both mean `!=`.
pub open spec fn condition_parse(inp: Seq<char>, ts: Seq<Token>, p: int) -> Parsed {
    if p >= ts.len() {
        expected_after(condition_words(), "entity keyword"@, p, Seq::empty())
    } else {
        let t = ts[p];
        let k = t.kind();
        let node = node1(NodeType::Condition, "Condition"@, Some(t), leaf(NodeType::String, display_name(k), Some(t)));
        let not_equal = node1(
            NodeType::Condition,
            "Condition"@,
            Some(t),
            leaf(NodeType::String, display_name(TokenType::NotEquals), Some(t)),
        );
        if k == TokenType::Not && is_equal_word(kind_at(ts, p + 1)) {
            Parsed::Node(not_equal, p + 2)
        } else if k == TokenType::Does && kind_at(ts, p + 1) == Some(TokenType::Not) && is_equal_word(
            kind_at(ts, p + 2),
        ) {
            Parsed::Node(not_equal, p + 3)
        } else if is_plain_condition(k) {
            Parsed::Node(node, p + 1)
        } else if k == TokenType::Starts {
            if p + 1 >= ts.len() || ts[p + 1].kind() != TokenType::With {
                missing("Expected 'with' after 'starts'"@)
            } else {
                Parsed::Node(node, p + 2)
            }
        } else if k == TokenType::Ends {
            if p + 1 >= ts.len() || ts[p + 1].kind() != TokenType::With {
                missing("Expected 'with' after 'ends'"@)
            } else {
                Parsed::Node(node, p + 2)
            }
        } else if k == TokenType::With {
            wrong_here(lexeme(inp, t), "string condition"@, condition_phrases(), t)
        } else if is_binop(k) {
            wrong_here(lexeme(inp, t), "string condition"@, condition_words6(), t)
        } else {
            wrong_here(tok_desc(inp, t), "string condition"@, condition_words6(), t)
        }
    }
}

/// The kind of the token at `i`, when there is one.
pub open spec fn kind_at(ts: Seq<Token>, i: int) -> Option<TokenType> {
    if 0 <= i < ts.len() {
        Some(ts[i].kind())
    } else {
        None
    }
}

/// `=`, `equals` or `equal`.
pub open spec fn is_equal_word(k: Option<TokenType>) -> bool {
    k == Some(TokenType::Equals) || k == Some(TokenType::EqualsWord) || k == Some(TokenType::Equal)
}

/// The comparison that starts at `p` (with `p` a position of `ts`): the
/// token kind it means and the number of tokens it takes. The phrases
/// `at least`, `at most`, `less than`, `greater than`, `more than`,
/// `fewer than`, `less than or equal to`, `greater than or equal to`,
/// `not equals` and `does not equal` are read whole; any other comparison
/// token stands alone.
pub open spec fn comparison_at(ts: Seq<Token>, p: int) -> Option<(TokenType, int)> {
    let k = ts[p].kind();
    if k == TokenType::At {
        if kind_at(ts, p + 1) == Some(TokenType::Least) {
            Some((TokenType::Least, 2))
        } else if kind_at(ts, p + 1) == Some(TokenType::Most) {
            Some((TokenType::Most, 2))
        } else {
            None
        }
    } else if k == TokenType::DoesNotEqual {
        Some((TokenType::NotEquals, 1))
    } else if !is_binop(k) {
        None
    } else if (k == TokenType::Less || k == TokenType::Greater) && kind_at(ts, p + 1) == Some(TokenType::Than) {
        if kind_at(ts, p + 2) == Some(TokenType::Or) && kind_at(ts, p + 3) == Some(TokenType::Equal)
            && kind_at(ts, p + 4) == Some(TokenType::To) {
            Some((if k == TokenType::Less { TokenType::LessEqual } else { TokenType::GreaterEqual }, 5))
        } else {
            Some((k, 2))
        }
    } else if (k == TokenType::More || k == TokenType::Fewer) && kind_at(ts, p + 1) == Some(TokenType::Than) {
        Some((k, 2))
    } else if k == TokenType::Not && is_equal_word(kind_at(ts, p + 1)) {
        Some((TokenType::NotEquals, 2))
    } else if k == TokenType::Does && kind_at(ts, p + 1) == Some(TokenType::Not) && is_equal_word(kind_at(ts, p + 2)) {
        Some((TokenType::NotEquals, 3))
    } else {
        Some((k, 1))
    }
}

/// Whether a comparison starts at `p`.
pub open spec fn comparison_starts(ts: Seq<Token>, p: int) -> bool {
    0 <= p < ts.len() && comparison_at(ts, p) is Some
}

/// `<binop>`: a numeric comparison, read at position `p`; its node holds
/// the kind the comparison means.
pub open spec fn binop_parse(ts: Seq<Token>, p: int) -> Parsed {
    if p >= ts.len() {
        expected_after(binop_words(), "numeric field"@, p, Seq::empty())
    } else {
        let t = ts[p];
        match comparison_at(ts, p) {
            Some((m, n)) => Parsed::Node(
                node1(NodeType::Binop, "Binop"@, Some(t), leaf(NodeType::String, display_name(m), Some(t))),
                p + n,
            ),
            None => Parsed::Error(
                SyntaxErrorV::InvalidContext {
                    token: display_name(t.kind()),
                    context: "numeric comparison"@,
                    suggestions: binop_words(),
                },
                one(t),
            ),
        }
    }
}

/// A value node of type `nt` holding the text of the token at `p`, with the
/// token's kind as its child; `msg` when there is no token.
pub open spec fn value_parse(inp: Seq<char>, ts: Seq<Token>, p: int, nt: NodeType, msg: Seq<char>) -> Parsed {
    if p >= ts.len() {
        missing(msg)
    } else {
        let t = ts[p];
        match lexeme(inp, t) {
            Some(l) => Parsed::Node(
                node1(nt, l, Some(t), leaf(NodeType::String, display_name(t.kind()), Some(t))),
                p + 1,
            ),
            None => Parsed::Stuck,
        }
    }
}

/// Token kinds that compare and may not stand where a value is expected.
pub open spec fn is_comparison_symbol(k: TokenType) -> bool {
    match k {
        TokenType::Equals | TokenType::NotEquals | TokenType::LessThan | TokenType::GreaterThan
        | TokenType::LessEqual | TokenType::GreaterEqual => true,
        _ => false,
    }
}

/// Token kinds that are string conditions and may not stand where a value is
/// expected.
pub open spec fn is_condition_word(k: TokenType) -> bool {
    match k {
        TokenType::Contains | TokenType::Has | TokenType::Starts | TokenType::Ends
        | TokenType::Is | TokenType::Equal | TokenType::EqualsWord | TokenType::Does => true,
        _ => false,
    }
}

/// `<identifier>`: any token but an operator, read at position `p`.
pub open spec fn identifier_parse(inp: Seq<char>, ts: Seq<Token>, p: int) -> Parsed {
    if p >= ts.len() {
        missing("a value to search for"@)
    } else {
        let t = ts[p];
        match lexeme(inp, t) {
            None => Parsed::Stuck,
            Some(l) => if is_comparison_symbol(t.kind()) {
                wrong_here(Some(l), "after string condition"@, value_kinds(), t)
            } else if is_condition_word(t.kind()) {
                wrong_here(Some(l), "after string condition"@, value_fixes(), t)
            } else {
                Parsed::Node(
                    node1(NodeType::Identifier, l, Some(t), leaf(NodeType::String, display_name(t.kind()), Some(t))),
                    p + 1,
                )
            },
        }
    }
}

/// `<string>`: an e-mail identifier when the next token's kind name holds
/// an `@`, an identifier otherwise.
pub open spec fn string_parse(inp: Seq<char>, ts: Seq<Token>, p: int) -> Parsed {
    if p < ts.len() && seq_contains(display_name(ts[p].kind()), "@"@) {
        value_parse(inp, ts, p, NodeType::EmailIdentifier, "Expected email identifier"@)
    } else {
        identifier_parse(inp, ts, p)
    }
}

/// `<integer>`: any token, kept as its text.
pub open spec fn integer_parse(inp: Seq<char>, ts: Seq<Token>, p: int) -> Parsed {
    value_parse(inp, ts, p, NodeType::Integer, "a number"@)
}

/// `<time>`: any token, kept as its text.
pub open spec fn time_parse(inp: Seq<char>, ts: Seq<Token>, p: int) -> Parsed {
    value_parse(inp, ts, p, NodeType::Time, "time (e.g., '9:00am', '2:30pm')"@)
}

impl Parser {
    /// Parses a string condition.
    fn parse_condition(&mut self, tokens: &Vec<Token>) -> (r: Result<TreeNode, Failure>)
        requires
            old(self).token_pointer <= tokens.len(),
        ensures
            final(self).input_string == old(self).input_string,
            advanced(r, old(self).token_pointer, final(self).token_pointer, tokens.len() as int),
            result_view(r, final(self).token_pointer) == condition_parse(
                old(self).input_string@,
                tokens@,
                old(self).token_pointer as int,
            ),
    {
        let p = self.token_pointer;
        if p >= tokens.len() {
            return Err(fail_expected(condition_words_vec(), "entity keyword", p, Vec::new()));
        }
        let t = tokens[p];
        self.token_pointer = p + 1;
        let kind = *t.get_token_type();
        let n = tokens.len();
        let k1 = if p + 1 < n { Some(*tokens[p + 1].get_token_type()) } else { None };
        let k2 = if p + 1 < n && p + 2 < n { Some(*tokens[p + 2].get_token_type()) } else { None };
        let equal_word = |o: Option<TokenType>| -> (b: bool)
            ensures
                b == is_equal_word(o),
            { o == Some(TokenType::Equals) || o == Some(TokenType::EqualsWord) || o == Some(TokenType::Equal) };
        let negated = if kind == TokenType::Not && equal_word(k1) {
            Some(p + 2)
        } else if kind == TokenType::Does && k1 == Some(TokenType::Not) && equal_word(k2) {
            Some(p + 3)
        } else {
            None
        };
        if let Some(q) = negated {
            self.token_pointer = q;
            let child = TreeNode::new(NodeType::String, TokenType::NotEquals.to_string(), Some(t));
            return Ok(TreeNode::with1(NodeType::Condition, NodeType::Condition.to_string(), Some(t), child));
        }
        match kind {
            TokenType::Equals | TokenType::NotEquals | TokenType::Contains | TokenType::Has
            | TokenType::Is | TokenType::Equal | TokenType::EqualsWord | TokenType::Does
            | TokenType::DoesNotEqual => {},
            TokenType::Starts => {
                if p + 1 >= tokens.len() || *tokens[p + 1].get_token_type() != TokenType::With {
                    return Err(fail_missing("Expected 'with' after 'starts'"));
                }
                self.token_pointer = p + 2;
            },
            TokenType::Ends => {
                if p + 1 >= tokens.len() || *tokens[p + 1].get_token_type() != TokenType::With {
                    return Err(fail_missing("Expected 'with' after 'ends'"));
                }
                self.token_pointer = p + 2;
            },
            TokenType::With => {
                return Err(fail_here(self.get_lexeme(&t), "string condition", condition_phrases_vec(), t));
            },
            _ => {
                if Self::is_valid_binop_token(&kind) {
                    return Err(fail_here(self.get_lexeme(&t), "string condition", condition_words6_vec(), t));
                } else {
                    return Err(fail_here(self.describe(&t), "string condition", condition_words6_vec(), t));
                }
            },
        }
        let child = TreeNode::new(NodeType::String, kind.to_string(), Some(t));
        Ok(TreeNode::with1(NodeType::Condition, NodeType::Condition.to_string(), Some(t), child))
    }

    /// The comparison that starts at `p`.
    fn comparison(tokens: &Vec<Token>, p: usize) -> (r: Option<(TokenType, usize)>)
        requires
            p < tokens.len(),
        ensures
            match r {
                Some((m, n)) => comparison_at(tokens@, p as int) == Some((m, n as int)),
                None => comparison_at(tokens@, p as int) is None,
            },
    {
        let n = tokens.len();
        let k = *tokens[p].get_token_type();
        let next = |d: usize| -> (o: Option<TokenType>)
            requires
                p < n,
                n == tokens.len(),
            ensures
                o == kind_at(tokens@, p + d),
            { if d < n - p { Some(*tokens[p + d].get_token_type()) } else { None } };
        if k == TokenType::At {
            let k1 = next(1);
            if k1 == Some(TokenType::Least) {
                return Some((TokenType::Least, 2));
            } else if k1 == Some(TokenType::Most) {
                return Some((TokenType::Most, 2));
            } else {
                return None;
            }
        }
        if k == TokenType::DoesNotEqual {
            return Some((TokenType::NotEquals, 1));
        }
        if !Self::is_valid_binop_token(&k) {
            return None;
        }
        let k1 = next(1);
        if (k == TokenType::Less || k == TokenType::Greater) && k1 == Some(TokenType::Than) {
            let k2 = next(2);
            let k3 = next(3);
            let k4 = next(4);
            if k2 == Some(TokenType::Or) && k3 == Some(TokenType::Equal) && k4 == Some(TokenType::To) {
                return Some((if k == TokenType::Less { TokenType::LessEqual } else { TokenType::GreaterEqual }, 5));
            }
            return Some((k, 2));
        }
        if (k == TokenType::More || k == TokenType::Fewer) && k1 == Some(TokenType::Than) {
            return Some((k, 2));
        }
        if k == TokenType::Not && (k1 == Some(TokenType::Equals) || k1 == Some(TokenType::EqualsWord)
            || k1 == Some(TokenType::Equal)) {
            return Some((TokenType::NotEquals, 2));
        }
        if k == TokenType::Does && k1 == Some(TokenType::Not) {
            let k2 = next(2);
            if k2 == Some(TokenType::Equals) || k2 == Some(TokenType::EqualsWord) || k2 == Some(TokenType::Equal) {
                return Some((TokenType::NotEquals, 3));
            }
        }
        Some((k, 1))
    }

    /// Parses a numeric comparison.
    fn parse_binop(&mut self, tokens: &Vec<Token>) -> (r: Result<TreeNode, Failure>)
        requires
            old(self).token_pointer <= tokens.len(),
        ensures
            final(self).input_string == old(self).input_string,
            advanced(r, old(self).token_pointer, final(self).token_pointer, tokens.len() as int),
            result_view(r, final(self).token_pointer) == binop_parse(tokens@, old(self).token_pointer as int),
    {
        let p = self.token_pointer;
        if p >= tokens.len() {
            return Err(fail_expected(binop_words_vec(), "numeric field", p, Vec::new()));
        }
        let t = tokens[p];
        match Self::comparison(tokens, p) {
            Some((m, n)) => {
                self.token_pointer = p + n;
                let child = TreeNode::new(NodeType::String, m.to_string(), Some(t));
                Ok(TreeNode::with1(NodeType::Binop, NodeType::Binop.to_string(), Some(t), child))
            },
            None => {
                self.token_pointer = p + 1;
                Err(Failure::Syntax(
                    SyntaxError::InvalidContext {
                        token: t.get_token_type().to_string(),
                        context: "numeric comparison".to_string(),
                        suggestions: binop_words_vec(),
                    },
                    one_token(t),
                ))
            },
        }
    }

    /// A value node of type `nt` for the next token.
    fn parse_value(&mut self, tokens: &Vec<Token>, nt: NodeType, msg: &str) -> (r: Result<TreeNode, Failure>)
        requires
            old(self).token_pointer <= tokens.len(),
        ensures
            final(self).input_string == old(self).input_string,
            advanced(r, old(self).token_pointer, final(self).token_pointer, tokens.len() as int),
            result_view(r, final(self).token_pointer) == value_parse(
                old(self).input_string@,
                tokens@,
                old(self).token_pointer as int,
                nt,
                msg@,
            ),
    {
        let p = self.token_pointer;
        if p >= tokens.len() {
            return Err(fail_missing(msg));
        }
        let t = tokens[p];
        self.token_pointer = p + 1;
        match self.get_lexeme(&t) {
            Some(l) => {
                let child = TreeNode::new(NodeType::String, t.get_token_type().to_string(), Some(t));
                Ok(TreeNode::with1(nt, l, Some(t), child))
            },
            None => Err(Failure::Stuck),
        }
    }

    /// Parses an identifier.
    fn parse_identifier(&mut self, tokens: &Vec<Token>) -> (r: Result<TreeNode, Failure>)
        requires
            old(self).token_pointer <= tokens.len(),
        ensures
            final(self).input_string == old(self).input_string,
            advanced(r, old(self).token_pointer, final(self).token_pointer, tokens.len() as int),
            result_view(r, final(self).token_pointer) == identifier_parse(
                old(self).input_string@,
                tokens@,
                old(self).token_pointer as int,
            ),
    {
        let p = self.token_pointer;
        if p >= tokens.len() {
            return Err(fail_missing("a value to search for"));
        }
        let t = tokens[p];
        self.token_pointer = p + 1;
        let l = match self.get_lexeme(&t) {
            Some(l) => l,
            None => return Err(Failure::Stuck),
        };
        match *t.get_token_type() {
            TokenType::Equals | TokenType::NotEquals | TokenType::LessThan
            | TokenType::GreaterThan | TokenType::LessEqual | TokenType::GreaterEqual => {
                return Err(fail_here(Some(l), "after string condition", value_kinds_vec(), t));
            },
            TokenType::Contains | TokenType::Has | TokenType::Starts | TokenType::Ends
            | TokenType::Is | TokenType::Equal | TokenType::EqualsWord | TokenType::Does => {
                return Err(fail_here(Some(l), "after string condition", value_fixes_vec(), t));
            },
            _ => {},
        }
        let child = TreeNode::new(NodeType::String, t.get_token_type().to_string(), Some(t));
        Ok(TreeNode::with1(NodeType::Identifier, l, Some(t), child))
    }

    /// Parses an e-mail identifier.
    fn parse_email_identifier(&mut self, tokens: &Vec<Token>) -> (r: Result<TreeNode, Failure>)
        requires
            old(self).token_pointer <= tokens.len(),
        ensures
            final(self).input_string == old(self).input_string,
            advanced(r, old(self).token_pointer, final(self).token_pointer, tokens.len() as int),
            result_view(r, final(self).token_pointer) == value_parse(
                old(self).input_string@,
                tokens@,
                old(self).token_pointer as int,
                NodeType::EmailIdentifier,
                "Expected email identifier"@,
            ),
    {
        self.parse_value(tokens, NodeType::EmailIdentifier, "Expected email identifier")
    }

    /// Parses a string value.
    fn parse_string(&mut self, tokens: &Vec<Token>) -> (r: Result<TreeNode, Failure>)
        requires
            old(self).token_pointer <= tokens.len(),
        ensures
            final(self).input_string == old(self).input_string,
            advanced(r, old(self).token_pointer, final(self).token_pointer, tokens.len() as int),
            result_view(r, final(self).token_pointer) == string_parse(
                old(self).input_string@,
                tokens@,
                old(self).token_pointer as int,
            ),
    {
        if self.token_pointer < tokens.len() {
            let name = tokens[self.token_pointer].get_token_type().to_string();
            if str_contains(name.as_str(), "@") {
                return self.parse_email_identifier(tokens);
            }
        }
        self.parse_identifier(tokens)
    }

    /// Parses an integer value.
    fn parse_integer(&mut self, tokens: &Vec<Token>) -> (r: Result<TreeNode, Failure>)
        requires
            old(self).token_pointer <= tokens.len(),
        ensures
            final(self).input_string == old(self).input_string,
            advanced(r, old(self).token_pointer, final(self).token_pointer, tokens.len() as int),
            result_view(r, final(self).token_pointer) == integer_parse(
                old(self).input_string@,
                tokens@,
                old(self).token_pointer as int,
            ),
    {
        self.parse_value(tokens, NodeType::Integer, "a number")
    }

    /// Parses a time value.
    fn parse_time(&mut self, tokens: &Vec<Token>) -> (r: Result<TreeNode, Failure>)
        requires
            old(self).token_pointer <= tokens.len(),
        ensures
            final(self).input_string == old(self).input_string,
            advanced(r, old(self).token_pointer, final(self).token_pointer, tokens.len() as int),
            result_view(r, final(self).token_pointer) == time_parse(
                old(self).input_string@,
                tokens@,
                old(self).token_pointer as int,
            ),
    {
        self.parse_value(tokens, NodeType::Time, "time (e.g., '9:00am', '2:30pm')")
    }
}

// ---------------------------------------------------------------------------
// Field queries
// ---------------------------------------------------------------------------

/// `<condition> <string>` at `p`, made a node of type `nt` for keyword token
/// `main`; `msg` when nothing follows the condition.
pub open spec fn cond_string_parse(
    inp: Seq<char>,
    ts: Seq<Token>,
    p: int,
    nt: NodeType,
    main: Token,
    msg: Seq<char>,
) -> Parsed {
    match condition_parse(inp, ts, p) {
        Parsed::Node(c, p1) => if p1 >= ts.len() {
            missing(msg)
        } else {
            match string_parse(inp, ts, p1) {
                Parsed::Node(s, p2) => Parsed::Node(node2(nt, node_type_name(nt), Some(main), c, s), p2),
                other => other,
            }
        },
        other => other,
    }
}

/// `<binop> <integer>` at `p`, made a node of type `nt` for keyword token
/// `main`; `msg` when nothing follows the operator.
pub open spec fn binop_int_parse(
    inp: Seq<char>,
    ts: Seq<Token>,
    p: int,
    nt: NodeType,
    main: Token,
    msg: Seq<char>,
) -> Parsed {
    match binop_parse(ts, p) {
        Parsed::Node(b, p1) => if p1 >= ts.len() {
            missing(msg)
        } else {
            match integer_parse(inp, ts, p1) {
                Parsed::Node(i, p2) => Parsed::Node(node2(nt, node_type_name(nt), Some(main), b, i), p2),
                other => other,
            }
        },
        other => other,
    }
}

/// What the user is asked for when a field's value is missing.
pub open spec fn field_message(nt: NodeType) -> Seq<char> {
    match nt {
        NodeType::ProfessorQuery => "professor name or email"@,
        NodeType::SubjectQuery => "subject code (e.g., 'CS', 'MATH', 'PHYS')"@,
        NodeType::NumberQuery => "course number (e.g., '101', '3500')"@,
        NodeType::TitleQuery => "course title (e.g., 'Calculus', 'Introduction')"@,
        NodeType::DescriptionQuery => "description text to search for"@,
        NodeType::PrereqsQuery => "prerequisite course (e.g., 'CS101', 'MATH200')"@,
        NodeType::CoreqsQuery => "corequisite course (e.g., 'CS101L', 'PHYS201')"@,
        NodeType::InstructionMethodQuery => "instruction method (e.g., 'online', 'in-person', 'hybrid')"@,
        NodeType::CampusQuery => "campus name (e.g., 'Main', 'Downtown')"@,
        NodeType::FullQuery => "'true' or 'false'"@,
        NodeType::MeetingTypeQuery => "meeting type (e.g., 'lecture', 'lab', 'recitation')"@,
        NodeType::CreditHoursQuery => "number of credit hours (e.g., 3, 4)"@,
        NodeType::EnrollmentCapQuery => "maximum enrollment number (e.g., 30, 100)"@,
        NodeType::EnrollmentQuery => "enrollment count (e.g., 20, 50)"@,
        _ => Seq::empty(),
    }
}

/// `<keyword> <condition> <string>` where the keyword is the token just
/// before `p`.
pub open spec fn field_parse(inp: Seq<char>, ts: Seq<Token>, p: int, nt: NodeType) -> Parsed {
    cond_string_parse(inp, ts, p, nt, ts[p - 1], field_message(nt))
}

/// `("meeting type" | "type") <condition> <string>`: the node's token is the
/// `meeting` keyword when it stands two tokens back.
pub open spec fn meeting_type_parse(inp: Seq<char>, ts: Seq<Token>, p: int) -> Parsed {
    let main = if p > 1 && ts[p - 2].kind() == TokenType::Meeting {
        ts[p - 2]
    } else {
        ts[p - 1]
    };
    cond_string_parse(inp, ts, p, NodeType::MeetingTypeQuery, main, field_message(NodeType::MeetingTypeQuery))
}

/// `"credit" "hours" <binop> <integer>`, after the `credit` keyword.
pub open spec fn credit_parse(inp: Seq<char>, ts: Seq<Token>, p: int) -> Parsed {
    if p >= ts.len() {
        expected_after(hours_word(), "credit"@, p, Seq::empty())
    } else if ts[p].kind() != TokenType::Hours {
        expected_after(hours_word(), "credit"@, p + 1, one(ts[p]))
    } else {
        binop_int_parse(inp, ts, p + 1, NodeType::CreditHoursQuery, ts[p - 1], field_message(NodeType::CreditHoursQuery))
    }
}

/// `("cap" | "enrollment cap") <binop> <integer>`, after the first keyword;
/// a `cap` that follows is skipped.
pub open spec fn cap_parse(inp: Seq<char>, ts: Seq<Token>, p: int) -> Parsed {
    let q = if p < ts.len() && ts[p].kind() == TokenType::Cap { p + 1 } else { p };
    binop_int_parse(inp, ts, q, NodeType::EnrollmentCapQuery, ts[p - 1], field_message(NodeType::EnrollmentCapQuery))
}

/// `("size" | "enrollment") <binop> <integer>`, after the keyword.
pub open spec fn enrollment_parse(inp: Seq<char>, ts: Seq<Token>, p: int) -> Parsed {
    if !comparison_starts(ts, p) {
        missing("comparison like '>', '<', '=' followed by a number"@)
    } else {
        binop_int_parse(inp, ts, p, NodeType::EnrollmentQuery, ts[p - 1], field_message(NodeType::EnrollmentQuery))
    }
}

impl Parser {
    /// `<condition> <string>` made a node of type `nt` for keyword `main`.
    fn condition_then_string(&mut self, tokens: &Vec<Token>, nt: NodeType, main: Token, msg: &str) -> (r: Result<TreeNode, Failure>)
        requires
            old(self).token_pointer <= tokens.len(),
        ensures
            final(self).input_string == old(self).input_string,
            advanced(r, old(self).token_pointer, final(self).token_pointer, tokens.len() as int),
            result_view(r, final(self).token_pointer) == cond_string_parse(
                old(self).input_string@,
                tokens@,
                old(self).token_pointer as int,
                nt,
                main,
                msg@,
            ),
    {
        let c = match self.parse_condition(tokens) {
            Ok(c) => c,
            Err(e) => return Err(e),
        };
        if self.token_pointer >= tokens.len() {
            return Err(fail_missing(msg));
        }
        let s = match self.parse_string(tokens) {
            Ok(s) => s,
            Err(e) => return Err(e),
        };
        Ok(TreeNode::with2(nt, nt.to_string(), Some(main), c, s))
    }

    /// `<binop> <integer>` made a node of type `nt` for keyword `main`.
    fn binop_then_integer(&mut self, tokens: &Vec<Token>, nt: NodeType, main: Token, msg: &str) -> (r: Result<TreeNode, Failure>)
        requires
            old(self).token_pointer <= tokens.len(),
        ensures
            final(self).input_string == old(self).input_string,
            advanced(r, old(self).token_pointer, final(self).token_pointer, tokens.len() as int),
            result_view(r, final(self).token_pointer) == binop_int_parse(
                old(self).input_string@,
                tokens@,
                old(self).token_pointer as int,
                nt,
                main,
                msg@,
            ),
    {
        let b = match self.parse_binop(tokens) {
            Ok(b) => b,
            Err(e) => return Err(e),
        };
        if self.token_pointer >= tokens.len() {
            return Err(fail_missing(msg));
        }
        let i = match self.parse_integer(tokens) {
            Ok(i) => i,
            Err(e) => return Err(e),
        };
        Ok(TreeNode::with2(nt, nt.to_string(), Some(main), b, i))
    }

    /// A field query whose keyword is the token just consumed.
    fn parse_field(&mut self, tokens: &Vec<Token>, nt: NodeType, msg: &str) -> (r: Result<TreeNode, Failure>)
        requires
            1 <= old(self).token_pointer <= tokens.len(),
            msg@ == field_message(nt),
        ensures
            final(self).input_string == old(self).input_string,
            advanced(r, old(self).token_pointer, final(self).token_pointer, tokens.len() as int),
            result_view(r, final(self).token_pointer) == field_parse(
                old(self).input_string@,
                tokens@,
                old(self).token_pointer as int,
                nt,
            ),
    {
        let main = tokens[self.token_pointer - 1];
        self.condition_then_string(tokens, nt, main, msg)
    }
}

impl Parser {
    /// Parses the professor query after its keyword.
    fn parse_professor_query(&mut self, tokens: &Vec<Token>) -> (r: Result<TreeNode, Failure>)
        requires
            1 <= old(self).token_pointer <= tokens.len(),
        ensures
            final(self).input_string == old(self).input_string,
            advanced(r, old(self).token_pointer, final(self).token_pointer, tokens.len() as int),
            result_view(r, final(self).token_pointer) == field_parse(
                old(self).input_string@,
                tokens@,
                old(self).token_pointer as int,
                NodeType::ProfessorQuery,
            ),
    {
        self.parse_field(tokens, NodeType::ProfessorQuery, "professor name or email")
    }

    /// Parses the subject query after its keyword.
    fn parse_subject_query(&mut self, tokens: &Vec<Token>) -> (r: Result<TreeNode, Failure>)
        requires
            1 <= old(self).token_pointer <= tokens.len(),
        ensures
            final(self).input_string == old(self).input_string,
            advanced(r, old(self).token_pointer, final(self).token_pointer, tokens.len() as int),
            result_view(r, final(self).token_pointer) == field_parse(
                old(self).input_string@,
                tokens@,
                old(self).token_pointer as int,
                NodeType::SubjectQuery,
            ),
    {
        self.parse_field(tokens, NodeType::SubjectQuery, "subject code (e.g., 'CS', 'MATH', 'PHYS')")
    }

    /// Parses the course number query after its keyword.
    fn parse_number_query(&mut self, tokens: &Vec<Token>) -> (r: Result<TreeNode, Failure>)
        requires
            1 <= old(self).token_pointer <= tokens.len(),
        ensures
            final(self).input_string == old(self).input_string,
            advanced(r, old(self).token_pointer, final(self).token_pointer, tokens.len() as int),
            result_view(r, final(self).token_pointer) == field_parse(
                old(self).input_string@,
                tokens@,
                old(self).token_pointer as int,
                NodeType::NumberQuery,
            ),
    {
        self.parse_field(tokens, NodeType::NumberQuery, "course number (e.g., '101', '3500')")
    }

    /// Parses the title query after its keyword.
    fn parse_title_query(&mut self, tokens: &Vec<Token>) -> (r: Result<TreeNode, Failure>)
        requires
            1 <= old(self).token_pointer <= tokens.len(),
        ensures
            final(self).input_string == old(self).input_string,
            advanced(r, old(self).token_pointer, final(self).token_pointer, tokens.len() as int),
            result_view(r, final(self).token_pointer) == field_parse(
                old(self).input_string@,
                tokens@,
                old(self).token_pointer as int,
                NodeType::TitleQuery,
            ),
    {
        self.parse_field(tokens, NodeType::TitleQuery, "course title (e.g., 'Calculus', 'Introduction')")
    }

    /// Parses the description query after its keyword.
    fn parse_description_query(&mut self, tokens: &Vec<Token>) -> (r: Result<TreeNode, Failure>)
        requires
            1 <= old(self).token_pointer <= tokens.len(),
        ensures
            final(self).input_string == old(self).input_string,
            advanced(r, old(self).token_pointer, final(self).token_pointer, tokens.len() as int),
            result_view(r, final(self).token_pointer) == field_parse(
                old(self).input_string@,
                tokens@,
                old(self).token_pointer as int,
                NodeType::DescriptionQuery,
            ),
    {
        self.parse_field(tokens, NodeType::DescriptionQuery, "description text to search for")
    }

    /// Parses the prerequisites query after its keyword.
    fn parse_prereqs_query(&mut self, tokens: &Vec<Token>) -> (r: Result<TreeNode, Failure>)
        requires
            1 <= old(self).token_pointer <= tokens.len(),
        ensures
            final(self).input_string == old(self).input_string,
            advanced(r, old(self).token_pointer, final(self).token_pointer, tokens.len() as int),
            result_view(r, final(self).token_pointer) == field_parse(
                old(self).input_string@,
                tokens@,
                old(self).token_pointer as int,
                NodeType::PrereqsQuery,
            ),
    {
        self.parse_field(tokens, NodeType::PrereqsQuery, "prerequisite course (e.g., 'CS101', 'MATH200')")
    }

    /// Parses the corequisites query after its keyword.
    fn parse_coreqs_query(&mut self, tokens: &Vec<Token>) -> (r: Result<TreeNode, Failure>)
        requires
            1 <= old(self).token_pointer <= tokens.len(),
        ensures
            final(self).input_string == old(self).input_string,
            advanced(r, old(self).token_pointer, final(self).token_pointer, tokens.len() as int),
            result_view(r, final(self).token_pointer) == field_parse(
                old(self).input_string@,
                tokens@,
                old(self).token_pointer as int,
                NodeType::CoreqsQuery,
            ),
    {
        self.parse_field(tokens, NodeType::CoreqsQuery, "corequisite course (e.g., 'CS101L', 'PHYS201')")
    }

    /// Parses the instruction method query after its keyword.
    fn parse_instruction_method_query(&mut self, tokens: &Vec<Token>) -> (r: Result<TreeNode, Failure>)
        requires
            1 <= old(self).token_pointer <= tokens.len(),
        ensures
            final(self).input_string == old(self).input_string,
            advanced(r, old(self).token_pointer, final(self).token_pointer, tokens.len() as int),
            result_view(r, final(self).token_pointer) == field_parse(
                old(self).input_string@,
                tokens@,
                old(self).token_pointer as int,
                NodeType::InstructionMethodQuery,
            ),
    {
        self.parse_field(tokens, NodeType::InstructionMethodQuery, "instruction method (e.g., 'online', 'in-person', 'hybrid')")
    }

    /// Parses the campus query after its keyword.
    fn parse_campus_query(&mut self, tokens: &Vec<Token>) -> (r: Result<TreeNode, Failure>)
        requires
            1 <= old(self).token_pointer <= tokens.len(),
        ensures
            final(self).input_string == old(self).input_string,
            advanced(r, old(self).token_pointer, final(self).token_pointer, tokens.len() as int),
            result_view(r, final(self).token_pointer) == field_parse(
                old(self).input_string@,
                tokens@,
                old(self).token_pointer as int,
                NodeType::CampusQuery,
            ),
    {
        self.parse_field(tokens, NodeType::CampusQuery, "campus name (e.g., 'Main', 'Downtown')")
    }

    /// Parses the full query after its keyword.
    fn parse_full_query(&mut self, tokens: &Vec<Token>) -> (r: Result<TreeNode, Failure>)
        requires
            1 <= old(self).token_pointer <= tokens.len(),
        ensures
            final(self).input_string == old(self).input_string,
            advanced(r, old(self).token_pointer, final(self).token_pointer, tokens.len() as int),
            result_view(r, final(self).token_pointer) == field_parse(
                old(self).input_string@,
                tokens@,
                old(self).token_pointer as int,
                NodeType::FullQuery,
            ),
    {
        self.parse_field(tokens, NodeType::FullQuery, "'true' or 'false'")
    }

    /// Parses the meeting type query after `meeting type` or `type`.
    fn parse_meeting_type_query(&mut self, tokens: &Vec<Token>) -> (r: Result<TreeNode, Failure>)
        requires
            1 <= old(self).token_pointer <= tokens.len(),
        ensures
            final(self).input_string == old(self).input_string,
            advanced(r, old(self).token_pointer, final(self).token_pointer, tokens.len() as int),
            result_view(r, final(self).token_pointer) == meeting_type_parse(
                old(self).input_string@,
                tokens@,
                old(self).token_pointer as int,
            ),
    {
        let p = self.token_pointer;
        let main = if p > 1 && *tokens[p - 2].get_token_type() == TokenType::Meeting {
            tokens[p - 2]
        } else {
            tokens[p - 1]
        };
        self.condition_then_string(
            tokens,
            NodeType::MeetingTypeQuery,
            main,
            "meeting type (e.g., 'lecture', 'lab', 'recitation')",
        )
    }

    /// Parses `credit hours <binop> <integer>` after `credit`.
    fn parse_credit_hours_query(&mut self, tokens: &Vec<Token>) -> (r: Result<TreeNode, Failure>)
        requires
            1 <= old(self).token_pointer <= tokens.len(),
        ensures
            final(self).input_string == old(self).input_string,
            advanced(r, old(self).token_pointer, final(self).token_pointer, tokens.len() as int),
            result_view(r, final(self).token_pointer) == credit_parse(
                old(self).input_string@,
                tokens@,
                old(self).token_pointer as int,
            ),
    {
        let p = self.token_pointer;
        let credit_token = tokens[p - 1];
        if p >= tokens.len() {
            return Err(fail_expected(hours_word_vec(), "credit", p, Vec::new()));
        }
        let hours_token = tokens[p];
        self.token_pointer = p + 1;
        if *hours_token.get_token_type() != TokenType::Hours {
            return Err(fail_expected(hours_word_vec(), "credit", p + 1, one_token(hours_token)));
        }
        self.binop_then_integer(
            tokens,
            NodeType::CreditHoursQuery,
            credit_token,
            "number of credit hours (e.g., 3, 4)",
        )
    }

    /// Parses an enrollment cap query after `cap` or `enrollment`.
    fn parse_enrollment_cap_query(&mut self, tokens: &Vec<Token>) -> (r: Result<TreeNode, Failure>)
        requires
            1 <= old(self).token_pointer <= tokens.len(),
        ensures
            final(self).input_string == old(self).input_string,
            advanced(r, old(self).token_pointer, final(self).token_pointer, tokens.len() as int),
            result_view(r, final(self).token_pointer) == cap_parse(
                old(self).input_string@,
                tokens@,
                old(self).token_pointer as int,
            ),
    {
        let p = self.token_pointer;
        let cap_token = tokens[p - 1];
        if p < tokens.len() && *tokens[p].get_token_type() == TokenType::Cap {
            self.token_pointer = p + 1;
        }
        self.binop_then_integer(
            tokens,
            NodeType::EnrollmentCapQuery,
            cap_token,
            "maximum enrollment number (e.g., 30, 100)",
        )
    }

    /// Parses an enrollment query after `size` or `enrollment`.
    fn parse_enrollment_query(&mut self, tokens: &Vec<Token>) -> (r: Result<TreeNode, Failure>)
        requires
            1 <= old(self).token_pointer <= tokens.len(),
        ensures
            final(self).input_string == old(self).input_string,
            advanced(r, old(self).token_pointer, final(self).token_pointer, tokens.len() as int),
            result_view(r, final(self).token_pointer) == enrollment_parse(
                old(self).input_string@,
                tokens@,
                old(self).token_pointer as int,
            ),
    {
        let p = self.token_pointer;
        let enrollment_token = tokens[p - 1];
        if p >= tokens.len() || Self::comparison(tokens, p).is_none() {
            return Err(fail_missing("comparison like '>', '<', '=' followed by a number"));
        }
        self.binop_then_integer(
            tokens,
            NodeType::EnrollmentQuery,
            enrollment_token,
            "enrollment count (e.g., 20, 50)",
        )
    }
}

// ---------------------------------------------------------------------------
// Course, section, time and day queries
// ---------------------------------------------------------------------------

/// `"course" <condition> <string>` directly, after the `course` keyword: a
/// course query with the condition and the value as its two children, which
/// searches the course title and the subject code.
pub open spec fn direct_course_parse(inp: Seq<char>, ts: Seq<Token>, p: int) -> Parsed {
    match condition_parse(inp, ts, p) {
        Parsed::Node(c, p1) => match string_parse(inp, ts, p1) {
            Parsed::Node(s, p2) => Parsed::Node(node2(NodeType::CourseQuery, "CourseQuery"@, Some(ts[p - 1]), c, s), p2),
            other => other,
        },
        other => other,
    }
}

/// Wraps the node of a successful routine in a one-child node.
pub open spec fn wrap(r: Parsed, nt: NodeType, tok: Option<Token>) -> Parsed {
    match r {
        Parsed::Node(n, q) => Parsed::Node(node1(nt, node_type_name(nt), tok, n), q),
        other => other,
    }
}

/// Token kinds that begin a direct condition after `course`.
pub open spec fn is_course_condition(k: TokenType) -> bool {
    match k {
        TokenType::Equals | TokenType::NotEquals | TokenType::Contains | TokenType::Has
        | TokenType::Starts | TokenType::With | TokenType::Ends | TokenType::Is
        | TokenType::Equal | TokenType::EqualsWord | TokenType::Does | TokenType::DoesNotEqual => true,
        _ => false,
    }
}

/// `<course_query>` after the `course` keyword: a field sub-query wrapped in
/// a course query, or a direct condition on the title and subject code.
pub open spec fn course_parse(inp: Seq<char>, ts: Seq<Token>, p: int) -> Parsed {
    if p >= ts.len() {
        expected_after(course_next(), "course"@, p, Seq::empty())
    } else if is_course_condition(ts[p].kind()) {
        direct_course_parse(inp, ts, p)
    } else {
        let t = ts[p];
        let sub = match t.kind() {
            TokenType::Subject => field_parse(inp, ts, p + 1, NodeType::SubjectQuery),
            TokenType::Number => field_parse(inp, ts, p + 1, NodeType::NumberQuery),
            TokenType::Title => field_parse(inp, ts, p + 1, NodeType::TitleQuery),
            TokenType::Description => field_parse(inp, ts, p + 1, NodeType::DescriptionQuery),
            TokenType::Credit => credit_parse(inp, ts, p + 1),
            TokenType::Prereqs => field_parse(inp, ts, p + 1, NodeType::PrereqsQuery),
            TokenType::Corereqs => field_parse(inp, ts, p + 1, NodeType::CoreqsQuery),
            _ => if is_binop(t.kind()) {
                wrong_here(lexeme(inp, t), "after 'course'"@, course_next(), t)
            } else {
                wrong_here(tok_desc(inp, t), "after 'course'"@, course_next(), t)
            },
        };
        wrap(sub, NodeType::CourseQuery, Some(ts[p - 1]))
    }
}

/// `<section_query>` after the `section` keyword: the sub-query named by
/// the keyword that follows, read past that keyword (`instruction` may be
/// followed by `method`, `enrollment` by `cap`), wrapped in a section query.
pub open spec fn section_parse(inp: Seq<char>, ts: Seq<Token>, p: int) -> Parsed {
    if p >= ts.len() {
        expected_after(section_next(), "section"@, p, Seq::empty())
    } else {
        let t = ts[p];
        let q = p + 1;
        let sub = match t.kind() {
            TokenType::Subject => field_parse(inp, ts, q, NodeType::SubjectQuery),
            TokenType::Course => course_parse(inp, ts, q),
            TokenType::Enrollment => if q < ts.len() && ts[q].kind() == TokenType::Cap {
                cap_parse(inp, ts, q)
            } else {
                enrollment_parse(inp, ts, q)
            },
            TokenType::Instruction => if q < ts.len() && ts[q].kind() == TokenType::Method {
                field_parse(inp, ts, q + 1, NodeType::InstructionMethodQuery)
            } else {
                field_parse(inp, ts, q, NodeType::InstructionMethodQuery)
            },
            TokenType::Campus => field_parse(inp, ts, q, NodeType::CampusQuery),
            TokenType::Size => enrollment_parse(inp, ts, q),
            TokenType::Cap => cap_parse(inp, ts, q),
            TokenType::Full => field_parse(inp, ts, q, NodeType::FullQuery),
            _ => wrong_here(tok_desc(inp, t), "after 'section'"@, section_next(), t),
        };
        wrap(sub, NodeType::SectionQuery, Some(ts[p - 1]))
    }
}

/// `<time_range> ::= <time> "to" <time>`.
pub open spec fn time_range_parse(inp: Seq<char>, ts: Seq<Token>, p: int) -> Parsed {
    match time_parse(inp, ts, p) {
        Parsed::Node(s, p1) => if p1 >= ts.len() {
            missing("'to' followed by end time (e.g., '9:00am to 5:00pm')"@)
        } else if ts[p1].kind() != TokenType::To {
            expected_after(to_word(), "start time"@, p1 + 1, one(ts[p1]))
        } else {
            match time_parse(inp, ts, p1 + 1) {
                Parsed::Node(e, p2) => Parsed::Node(node2(NodeType::TimeRange, "TimeRange"@, Some(ts[p1]), s, e), p2),
                other => other,
            }
        },
        other => other,
    }
}

/// Whether the text of token `t`, in lower case, is `w`.
pub open spec fn word_is(inp: Seq<char>, t: Token, w: Seq<char>) -> bool {
    match lexeme(inp, t) {
        Some(l) => str_lower(l) == w,
        None => false,
    }
}

/// `before <time>` or `after <time>` at `p`: a comparison node meaning `<`
/// or `>` for the word, followed by the time.
pub open spec fn time_word_parse(inp: Seq<char>, ts: Seq<Token>, p: int, kind_node: SNode, main: Token, op: TokenType) -> Parsed {
    let t = ts[p];
    let b = node1(NodeType::Binop, "Binop"@, Some(t), leaf(NodeType::String, display_name(op), Some(t)));
    match time_parse(inp, ts, p + 1) {
        Parsed::Node(tm, q) => Parsed::Node(node3(NodeType::TimeQuery, "TimeQuery"@, Some(main), kind_node, b, tm), q),
        other => other,
    }
}

/// `between <time> (and | to) <time>` at `p`: a time range.
pub open spec fn between_parse(inp: Seq<char>, ts: Seq<Token>, p: int, kind_node: SNode, main: Token) -> Parsed {
    match time_parse(inp, ts, p + 1) {
        Parsed::Node(s, p1) => if p1 >= ts.len() {
            missing("'and' followed by end time (e.g., 'between 9:00am and 5:00pm')"@)
        } else if ts[p1].kind() != TokenType::And && ts[p1].kind() != TokenType::To {
            expected_after(and_to_words(), "start time"@, p1 + 1, one(ts[p1]))
        } else {
            match time_parse(inp, ts, p1 + 1) {
                Parsed::Node(e, p2) => Parsed::Node(
                    node2(
                        NodeType::TimeQuery,
                        "TimeQuery"@,
                        Some(main),
                        kind_node,
                        node2(NodeType::TimeRange, "TimeRange"@, Some(ts[p1]), s, e),
                    ),
                    p2,
                ),
                other => other,
            }
        },
        other => other,
    }
}

/// `<time_query> ::= ("start" | "end") (<binop> <time> | <time_range> |
/// "before" <time> | "after" <time> | "between" <time> "and" <time>)`
/// after the keyword; a range when the token after next is `to`.
pub open spec fn time_query_parse(inp: Seq<char>, ts: Seq<Token>, p: int) -> Parsed {
    let main = ts[p - 1];
    let k = main.kind();
    if k != TokenType::Start && k != TokenType::End {
        wrong_here(tok_desc(inp, main), "time query"@, start_end(), main)
    } else {
        let kind_node = leaf(NodeType::String, display_name(k), Some(main));
        if p >= ts.len() {
            missing("a time (e.g., '9:00am to 5:00pm' or '> 10:00am')"@)
        } else if p + 1 < ts.len() && ts[p + 1].kind() == TokenType::To {
            match time_range_parse(inp, ts, p) {
                Parsed::Node(r, q) => Parsed::Node(node2(NodeType::TimeQuery, "TimeQuery"@, Some(main), kind_node, r), q),
                other => other,
            }
        } else if word_is(inp, ts[p], "before"@) {
            time_word_parse(inp, ts, p, kind_node, main, TokenType::LessThan)
        } else if word_is(inp, ts[p], "after"@) {
            time_word_parse(inp, ts, p, kind_node, main, TokenType::GreaterThan)
        } else if word_is(inp, ts[p], "between"@) {
            between_parse(inp, ts, p, kind_node, main)
        } else if !comparison_starts(ts, p) {
            missing("comparison (like '>', '<', '=') and a time (e.g., '9:00am')"@)
        } else {
            match binop_parse(ts, p) {
                Parsed::Node(b, p1) => match time_parse(inp, ts, p1) {
                    Parsed::Node(tm, p2) => Parsed::Node(
                        node3(NodeType::TimeQuery, "TimeQuery"@, Some(main), kind_node, b, tm),
                        p2,
                    ),
                    other => other,
                },
                other => other,
            }
        }
    }
}

/// The lowercase name of a day token.
pub open spec fn day_word(k: TokenType) -> Option<Seq<char>> {
    match k {
        TokenType::Monday => Some("monday"@),
        TokenType::Tuesday => Some("tuesday"@),
        TokenType::Wednesday => Some("wednesday"@),
        TokenType::Thursday => Some("thursday"@),
        TokenType::Friday => Some("friday"@),
        TokenType::Saturday => Some("saturday"@),
        TokenType::Sunday => Some("sunday"@),
        _ => None,
    }
}

/// `and` or `or`.
pub open spec fn is_logical(k: TokenType) -> bool {
    k == TokenType::And || k == TokenType::Or
}

/// The condition a bare day stands for: `=` (with a placeholder token).
pub open spec fn default_day_condition() -> SNode {
    leaf(NodeType::Condition, "="@, Some(Token::mk(TokenType::Equals, 0, 0)))
}

/// The value a bare day stands for: `true` (with a placeholder token).
pub open spec fn default_day_value() -> SNode {
    leaf(NodeType::Identifier, "true"@, Some(Token::mk(TokenType::Identifier, 0, 0)))
}

/// `<day> [<condition> <string>]` after the day keyword; where the input
/// ends or `and`/`or` follows, the condition defaults to `=` and the value
/// to `true`.
pub open spec fn day_helper_parse(inp: Seq<char>, ts: Seq<Token>, p: int, name: Seq<char>) -> Parsed {
    let cond = if p >= ts.len() || is_logical(ts[p].kind()) {
        Parsed::Node(default_day_condition(), p)
    } else {
        condition_parse(inp, ts, p)
    };
    match cond {
        Parsed::Node(c, q) => {
            let value = if q >= ts.len() || is_logical(ts[q].kind()) {
                Parsed::Node(default_day_value(), q)
            } else {
                string_parse(inp, ts, q)
            };
            match value {
                Parsed::Node(v, r) => Parsed::Node(node2(NodeType::String, name, Some(ts[p - 1]), c, v), r),
                other => other,
            }
        },
        other => other,
    }
}

/// `<day_query>` after the day keyword.
pub open spec fn day_parse(inp: Seq<char>, ts: Seq<Token>, p: int) -> Parsed {
    let main = ts[p - 1];
    match day_word(main.kind()) {
        Some(name) => wrap(day_helper_parse(inp, ts, p, name), NodeType::DayQuery, Some(main)),
        None => wrong_here(tok_desc(inp, main), "day name"@, day_names(), main),
    }
}

/// `<entity_query>`: a keyword and what follows it.
pub open spec fn entity_parse(inp: Seq<char>, ts: Seq<Token>, p: int) -> Parsed {
    if p >= ts.len() {
        expected_after(entities(), "start of query"@, p, Seq::empty())
    } else {
        let t = ts[p];
        let q = p + 1;
        let sub = match t.kind() {
            TokenType::Prof => field_parse(inp, ts, q, NodeType::ProfessorQuery),
            TokenType::Course => course_parse(inp, ts, q),
            TokenType::Subject => field_parse(inp, ts, q, NodeType::SubjectQuery),
            TokenType::Title => field_parse(inp, ts, q, NodeType::TitleQuery),
            TokenType::Section => section_parse(inp, ts, q),
            TokenType::Number => field_parse(inp, ts, q, NodeType::NumberQuery),
            TokenType::Description => field_parse(inp, ts, q, NodeType::DescriptionQuery),
            TokenType::Credit => credit_parse(inp, ts, q),
            TokenType::Prereqs => field_parse(inp, ts, q, NodeType::PrereqsQuery),
            TokenType::Corereqs => field_parse(inp, ts, q, NodeType::CoreqsQuery),
            TokenType::Enrollment => if q < ts.len() && ts[q].kind() == TokenType::Cap {
                cap_parse(inp, ts, q)
            } else {
                enrollment_parse(inp, ts, q)
            },
            TokenType::Size => enrollment_parse(inp, ts, q),
            TokenType::Cap => cap_parse(inp, ts, q),
            TokenType::Full => field_parse(inp, ts, q, NodeType::FullQuery),
            TokenType::Method => field_parse(inp, ts, q, NodeType::InstructionMethodQuery),
            TokenType::Campus => field_parse(inp, ts, q, NodeType::CampusQuery),
            TokenType::Meeting => if q < ts.len() && ts[q].kind() == TokenType::Type {
                meeting_type_parse(inp, ts, q + 1)
            } else {
                expected_after(type_word(), "meeting"@, q, Seq::empty())
            },
            TokenType::Type => meeting_type_parse(inp, ts, q),
            TokenType::Time | TokenType::Start | TokenType::End => time_query_parse(inp, ts, q),
            TokenType::Monday | TokenType::Tuesday | TokenType::Wednesday | TokenType::Thursday
            | TokenType::Friday | TokenType::Saturday | TokenType::Sunday => day_parse(inp, ts, q),
            _ => wrong_here(tok_desc(inp, t), "query start"@, entities_short(), t),
        };
        wrap(sub, NodeType::EntityQuery, None)
    }
}

/// The executable form of `wrap`.
fn wrap_result(r: Result<TreeNode, Failure>, nt: NodeType, tok: Option<Token>) -> (w: Result<TreeNode, Failure>)
    ensures
        forall|after: usize| result_view(w, after) == wrap(result_view(r, after), nt, tok),
        w is Ok == r is Ok,
{
    match r {
        Ok(n) => Ok(TreeNode::with1(nt, nt.to_string(), tok, n)),
        Err(e) => Err(e),
    }
}

impl Parser {
    /// `"course" <condition> <string>` as a query on the course title and
    /// subject code.
    fn parse_direct_course(&mut self, tokens: &Vec<Token>) -> (r: Result<TreeNode, Failure>)
        requires
            1 <= old(self).token_pointer <= tokens.len(),
        ensures
            final(self).input_string == old(self).input_string,
            advanced(r, old(self).token_pointer, final(self).token_pointer, tokens.len() as int),
            result_view(r, final(self).token_pointer) == direct_course_parse(
                old(self).input_string@,
                tokens@,
                old(self).token_pointer as int,
            ),
    {
        let course_token = tokens[self.token_pointer - 1];
        let c = match self.parse_condition(tokens) {
            Ok(c) => c,
            Err(e) => return Err(e),
        };
        let s = match self.parse_string(tokens) {
            Ok(s) => s,
            Err(e) => return Err(e),
        };
        Ok(TreeNode::with2(NodeType::CourseQuery, NodeType::CourseQuery.to_string(), Some(course_token), c, s))
    }

    /// Parses the course query after `course`.
    fn parse_course_query(&mut self, tokens: &Vec<Token>) -> (r: Result<TreeNode, Failure>)
        requires
            1 <= old(self).token_pointer <= tokens.len(),
        ensures
            final(self).input_string == old(self).input_string,
            advanced(r, old(self).token_pointer, final(self).token_pointer, tokens.len() as int),
            result_view(r, final(self).token_pointer) == course_parse(
                old(self).input_string@,
                tokens@,
                old(self).token_pointer as int,
            ),
    {
        let p = self.token_pointer;
        let course_token = tokens[p - 1];
        if p >= tokens.len() {
            return Err(fail_expected(course_next_vec(), "course", p, Vec::new()));
        }
        let t = tokens[p];
        let kind = *t.get_token_type();
        let sub = match kind {
            TokenType::Subject => {
                self.token_pointer = p + 1;
                self.parse_subject_query(tokens)
            },
            TokenType::Number => {
                self.token_pointer = p + 1;
                self.parse_number_query(tokens)
            },
            TokenType::Title => {
                self.token_pointer = p + 1;
                self.parse_title_query(tokens)
            },
            TokenType::Description => {
                self.token_pointer = p + 1;
                self.parse_description_query(tokens)
            },
            TokenType::Credit => {
                self.token_pointer = p + 1;
                self.parse_credit_hours_query(tokens)
            },
            TokenType::Prereqs => {
                self.token_pointer = p + 1;
                self.parse_prereqs_query(tokens)
            },
            TokenType::Corereqs => {
                self.token_pointer = p + 1;
                self.parse_coreqs_query(tokens)
            },
            TokenType::Equals | TokenType::NotEquals | TokenType::Contains | TokenType::Has
            | TokenType::Starts | TokenType::With | TokenType::Ends | TokenType::Is
            | TokenType::Equal | TokenType::EqualsWord | TokenType::Does | TokenType::DoesNotEqual => {
                return self.parse_direct_course(tokens);
            },
            _ => {
                if Self::is_valid_binop_token(&kind) {
                    Err(fail_here(self.get_lexeme(&t), "after 'course'", course_next_vec(), t))
                } else {
                    Err(fail_here(self.describe(&t), "after 'course'", course_next_vec(), t))
                }
            },
        };
        wrap_result(sub, NodeType::CourseQuery, Some(course_token))
    }

    /// Parses the section query after `section`.
    fn parse_section_query(&mut self, tokens: &Vec<Token>) -> (r: Result<TreeNode, Failure>)
        requires
            1 <= old(self).token_pointer <= tokens.len(),
        ensures
            final(self).input_string == old(self).input_string,
            advanced(r, old(self).token_pointer, final(self).token_pointer, tokens.len() as int),
            result_view(r, final(self).token_pointer) == section_parse(
                old(self).input_string@,
                tokens@,
                old(self).token_pointer as int,
            ),
    {
        let p = self.token_pointer;
        let section_token = tokens[p - 1];
        if p >= tokens.len() {
            return Err(fail_expected(section_next_vec(), "section", p, Vec::new()));
        }
        let t = tokens[p];
        let q = p + 1;
        let kind = *t.get_token_type();
        let next_is = |k: TokenType| -> (b: bool)
            requires
                q <= tokens.len(),
            ensures
                b == (q < tokens.len() && tokens@[q as int].kind() == k),
            { q < tokens.len() && *tokens[q].get_token_type() == k };
        let sub = match kind {
            TokenType::Subject => {
                self.token_pointer = q;
                self.parse_subject_query(tokens)
            },
            TokenType::Course => {
                self.token_pointer = q;
                self.parse_course_query(tokens)
            },
            TokenType::Enrollment => {
                self.token_pointer = q;
                if next_is(TokenType::Cap) {
                    self.parse_enrollment_cap_query(tokens)
                } else {
                    self.parse_enrollment_query(tokens)
                }
            },
            TokenType::Instruction => {
                self.token_pointer = if next_is(TokenType::Method) { q + 1 } else { q };
                self.parse_instruction_method_query(tokens)
            },
            TokenType::Campus => {
                self.token_pointer = q;
                self.parse_campus_query(tokens)
            },
            TokenType::Size => {
                self.token_pointer = q;
                self.parse_enrollment_query(tokens)
            },
            TokenType::Cap => {
                self.token_pointer = q;
                self.parse_enrollment_cap_query(tokens)
            },
            TokenType::Full => {
                self.token_pointer = q;
                self.parse_full_query(tokens)
            },
            _ => Err(fail_here(self.describe(&t), "after 'section'", section_next_vec(), t)),
        };
        wrap_result(sub, NodeType::SectionQuery, Some(section_token))
    }

    /// Parses `<time> to <time>`.
    fn parse_time_range(&mut self, tokens: &Vec<Token>) -> (r: Result<TreeNode, Failure>)
        requires
            old(self).token_pointer <= tokens.len(),
        ensures
            final(self).input_string == old(self).input_string,
            advanced(r, old(self).token_pointer, final(self).token_pointer, tokens.len() as int),
            result_view(r, final(self).token_pointer) == time_range_parse(
                old(self).input_string@,
                tokens@,
                old(self).token_pointer as int,
            ),
    {
        let start_time = match self.parse_time(tokens) {
            Ok(s) => s,
            Err(e) => return Err(e),
        };
        let p1 = self.token_pointer;
        if p1 >= tokens.len() {
            return Err(fail_missing("'to' followed by end time (e.g., '9:00am to 5:00pm')"));
        }
        let to_token = tokens[p1];
        self.token_pointer = p1 + 1;
        if *to_token.get_token_type() != TokenType::To {
            return Err(fail_expected(to_word_vec(), "start time", p1 + 1, one_token(to_token)));
        }
        let end_time = match self.parse_time(tokens) {
            Ok(e) => e,
            Err(e) => return Err(e),
        };
        Ok(TreeNode::with2(NodeType::TimeRange, NodeType::TimeRange.to_string(), Some(to_token), start_time, end_time))
    }

    /// Parses the time query after `start`, `end` or `time`.
    fn parse_time_query(&mut self, tokens: &Vec<Token>) -> (r: Result<TreeNode, Failure>)
        requires
            1 <= old(self).token_pointer <= tokens.len(),
        ensures
            final(self).input_string == old(self).input_string,
            advanced(r, old(self).token_pointer, final(self).token_pointer, tokens.len() as int),
            result_view(r, final(self).token_pointer) == time_query_parse(
                old(self).input_string@,
                tokens@,
                old(self).token_pointer as int,
            ),
    {
        let p = self.token_pointer;
        let main = tokens[p - 1];
        let kind = *main.get_token_type();
        if kind != TokenType::Start && kind != TokenType::End {
            return Err(fail_here(self.describe(&main), "time query", start_end_vec(), main));
        }
        let kind_node = TreeNode::new(NodeType::String, kind.to_string(), Some(main));
        if p >= tokens.len() {
            return Err(fail_missing("a time (e.g., '9:00am to 5:00pm' or '> 10:00am')"));
        }
        if p + 1 < tokens.len() && *tokens[p + 1].get_token_type() == TokenType::To {
            let range = match self.parse_time_range(tokens) {
                Ok(r) => r,
                Err(e) => return Err(e),
            };
            return Ok(TreeNode::with2(NodeType::TimeQuery, NodeType::TimeQuery.to_string(), Some(main), kind_node, range));
        }
        let t = tokens[p];
        if self.word_is(&t, "before") || self.word_is(&t, "after") {
            let op = if self.word_is(&t, "before") { TokenType::LessThan } else { TokenType::GreaterThan };
            let b = TreeNode::with1(
                NodeType::Binop,
                NodeType::Binop.to_string(),
                Some(t),
                TreeNode::new(NodeType::String, op.to_string(), Some(t)),
            );
            self.token_pointer = p + 1;
            let time = match self.parse_time(tokens) {
                Ok(tm) => tm,
                Err(e) => return Err(e),
            };
            return Ok(TreeNode::with3(NodeType::TimeQuery, NodeType::TimeQuery.to_string(), Some(main), kind_node, b, time));
        }
        if self.word_is(&t, "between") {
            self.token_pointer = p + 1;
            let start = match self.parse_time(tokens) {
                Ok(tm) => tm,
                Err(e) => return Err(e),
            };
            let p1 = self.token_pointer;
            if p1 >= tokens.len() {
                return Err(fail_missing("'and' followed by end time (e.g., 'between 9:00am and 5:00pm')"));
            }
            let sep = tokens[p1];
            self.token_pointer = p1 + 1;
            if *sep.get_token_type() != TokenType::And && *sep.get_token_type() != TokenType::To {
                return Err(fail_expected(and_to_words_vec(), "start time", p1 + 1, one_token(sep)));
            }
            let end = match self.parse_time(tokens) {
                Ok(tm) => tm,
                Err(e) => return Err(e),
            };
            let range = TreeNode::with2(NodeType::TimeRange, NodeType::TimeRange.to_string(), Some(sep), start, end);
            return Ok(TreeNode::with2(NodeType::TimeQuery, NodeType::TimeQuery.to_string(), Some(main), kind_node, range));
        }
        if Self::comparison(tokens, p).is_none() {
            return Err(fail_missing("comparison (like '>', '<', '=') and a time (e.g., '9:00am')"));
        }
        let binop = match self.parse_binop(tokens) {
            Ok(b) => b,
            Err(e) => return Err(e),
        };
        let time = match self.parse_time(tokens) {
            Ok(t) => t,
            Err(e) => return Err(e),
        };
        Ok(TreeNode::with3(NodeType::TimeQuery, NodeType::TimeQuery.to_string(), Some(main), kind_node, binop, time))
    }

    /// Parses a day query after the day keyword, defaulting a missing
    /// condition to `=` and a missing value to `true`.
    fn parse_day_query_helper(&mut self, tokens: &Vec<Token>, day_name: &str) -> (r: Result<TreeNode, Failure>)
        requires
            1 <= old(self).token_pointer <= tokens.len(),
        ensures
            final(self).input_string == old(self).input_string,
            r is Ok ==> old(self).token_pointer <= final(self).token_pointer <= tokens.len(),
            result_view(r, final(self).token_pointer) == day_helper_parse(
                old(self).input_string@,
                tokens@,
                old(self).token_pointer as int,
                day_name@,
            ),
    {
        let p = self.token_pointer;
        let day_token = tokens[p - 1];
        let condition = if p >= tokens.len() || *tokens[p].get_token_type() == TokenType::And
            || *tokens[p].get_token_type() == TokenType::Or {
            TreeNode::new(NodeType::Condition, "=".to_string(), Some(Token::new(TokenType::Equals, 0, 0)))
        } else {
            match self.parse_condition(tokens) {
                Ok(c) => c,
                Err(e) => return Err(e),
            }
        };
        let q = self.token_pointer;
        let value = if q >= tokens.len() || *tokens[q].get_token_type() == TokenType::And
            || *tokens[q].get_token_type() == TokenType::Or {
            TreeNode::new(NodeType::Identifier, "true".to_string(), Some(Token::new(TokenType::Identifier, 0, 0)))
        } else {
            match self.parse_string(tokens) {
                Ok(s) => s,
                Err(e) => return Err(e),
            }
        };
        Ok(TreeNode::with2(NodeType::String, day_name.to_string(), Some(day_token), condition, value))
    }
}

impl Parser {
    /// Parses the monday query after its keyword.
    fn parse_monday_query(&mut self, tokens: &Vec<Token>) -> (r: Result<TreeNode, Failure>)
        requires
            1 <= old(self).token_pointer <= tokens.len(),
        ensures
            final(self).input_string == old(self).input_string,
            r is Ok ==> old(self).token_pointer <= final(self).token_pointer <= tokens.len(),
            result_view(r, final(self).token_pointer) == day_helper_parse(
                old(self).input_string@,
                tokens@,
                old(self).token_pointer as int,
                "monday"@,
            ),
    {
        self.parse_day_query_helper(tokens, "monday")
    }

    /// Parses the tuesday query after its keyword.
    fn parse_tuesday_query(&mut self, tokens: &Vec<Token>) -> (r: Result<TreeNode, Failure>)
        requires
            1 <= old(self).token_pointer <= tokens.len(),
        ensures
            final(self).input_string == old(self).input_string,
            r is Ok ==> old(self).token_pointer <= final(self).token_pointer <= tokens.len(),
            result_view(r, final(self).token_pointer) == day_helper_parse(
                old(self).input_string@,
                tokens@,
                old(self).token_pointer as int,
                "tuesday"@,
            ),
    {
        self.parse_day_query_helper(tokens, "tuesday")
    }

    /// Parses the wednesday query after its keyword.
    fn parse_wednesday_query(&mut self, tokens: &Vec<Token>) -> (r: Result<TreeNode, Failure>)
        requires
            1 <= old(self).token_pointer <= tokens.len(),
        ensures
            final(self).input_string == old(self).input_string,
            r is Ok ==> old(self).token_pointer <= final(self).token_pointer <= tokens.len(),
            result_view(r, final(self).token_pointer) == day_helper_parse(
                old(self).input_string@,
                tokens@,
                old(self).token_pointer as int,
                "wednesday"@,
            ),
    {
        self.parse_day_query_helper(tokens, "wednesday")
    }

    /// Parses the thursday query after its keyword.
    fn parse_thursday_query(&mut self, tokens: &Vec<Token>) -> (r: Result<TreeNode, Failure>)
        requires
            1 <= old(self).token_pointer <= tokens.len(),
        ensures
            final(self).input_string == old(self).input_string,
            r is Ok ==> old(self).token_pointer <= final(self).token_pointer <= tokens.len(),
            result_view(r, final(self).token_pointer) == day_helper_parse(
                old(self).input_string@,
                tokens@,
                old(self).token_pointer as int,
                "thursday"@,
            ),
    {
        self.parse_day_query_helper(tokens, "thursday")
    }

    /// Parses the friday query after its keyword.
    fn parse_friday_query(&mut self, tokens: &Vec<Token>) -> (r: Result<TreeNode, Failure>)
        requires
            1 <= old(self).token_pointer <= tokens.len(),
        ensures
            final(self).input_string == old(self).input_string,
            r is Ok ==> old(self).token_pointer <= final(self).token_pointer <= tokens.len(),
            result_view(r, final(self).token_pointer) == day_helper_parse(
                old(self).input_string@,
                tokens@,
                old(self).token_pointer as int,
                "friday"@,
            ),
    {
        self.parse_day_query_helper(tokens, "friday")
    }

    /// Parses the saturday query after its keyword.
    fn parse_saturday_query(&mut self, tokens: &Vec<Token>) -> (r: Result<TreeNode, Failure>)
        requires
            1 <= old(self).token_pointer <= tokens.len(),
        ensures
            final(self).input_string == old(self).input_string,
            r is Ok ==> old(self).token_pointer <= final(self).token_pointer <= tokens.len(),
            result_view(r, final(self).token_pointer) == day_helper_parse(
                old(self).input_string@,
                tokens@,
                old(self).token_pointer as int,
                "saturday"@,
            ),
    {
        self.parse_day_query_helper(tokens, "saturday")
    }

    /// Parses the sunday query after its keyword.
    fn parse_sunday_query(&mut self, tokens: &Vec<Token>) -> (r: Result<TreeNode, Failure>)
        requires
            1 <= old(self).token_pointer <= tokens.len(),
        ensures
            final(self).input_string == old(self).input_string,
            r is Ok ==> old(self).token_pointer <= final(self).token_pointer <= tokens.len(),
            result_view(r, final(self).token_pointer) == day_helper_parse(
                old(self).input_string@,
                tokens@,
                old(self).token_pointer as int,
                "sunday"@,
            ),
    {
        self.parse_day_query_helper(tokens, "sunday")
    }

    /// Parses the day query after a day keyword.
    fn parse_day_query(&mut self, tokens: &Vec<Token>) -> (r: Result<TreeNode, Failure>)
        requires
            1 <= old(self).token_pointer <= tokens.len(),
        ensures
            final(self).input_string == old(self).input_string,
            r is Ok ==> old(self).token_pointer <= final(self).token_pointer <= tokens.len(),
            result_view(r, final(self).token_pointer) == day_parse(
                old(self).input_string@,
                tokens@,
                old(self).token_pointer as int,
            ),
    {
        let day_token = tokens[self.token_pointer - 1];
        let sub = match *day_token.get_token_type() {
            TokenType::Monday => self.parse_monday_query(tokens),
            TokenType::Tuesday => self.parse_tuesday_query(tokens),
            TokenType::Wednesday => self.parse_wednesday_query(tokens),
            TokenType::Thursday => self.parse_thursday_query(tokens),
            TokenType::Friday => self.parse_friday_query(tokens),
            TokenType::Saturday => self.parse_saturday_query(tokens),
            TokenType::Sunday => self.parse_sunday_query(tokens),
            _ => return Err(fail_here(self.describe(&day_token), "day name", day_names_vec(), day_token)),
        };
        wrap_result(sub, NodeType::DayQuery, Some(day_token))
    }

    /// Parses an entity query: a keyword and what follows it.
    #[verifier::rlimit(50)]
    fn parse_entity_query(&mut self, tokens: &Vec<Token>) -> (r: Result<TreeNode, Failure>)
        requires
            old(self).token_pointer <= tokens.len(),
        ensures
            final(self).input_string == old(self).input_string,
            advanced(r, old(self).token_pointer, final(self).token_pointer, tokens.len() as int),
            result_view(r, final(self).token_pointer) == entity_parse(
                old(self).input_string@,
                tokens@,
                old(self).token_pointer as int,
            ),
    {
        let p = self.token_pointer;
        if p >= tokens.len() {
            return Err(fail_expected(entities_vec(), "start of query", p, Vec::new()));
        }
        let t = tokens[p];
        let q = p + 1;
        self.token_pointer = q;
        let sub = match *t.get_token_type() {
            TokenType::Prof => self.parse_professor_query(tokens),
            TokenType::Course => self.parse_course_query(tokens),
            TokenType::Subject => self.parse_subject_query(tokens),
            TokenType::Title => self.parse_title_query(tokens),
            TokenType::Section => self.parse_section_query(tokens),
            TokenType::Number => self.parse_number_query(tokens),
            TokenType::Description => self.parse_description_query(tokens),
            TokenType::Credit => self.parse_credit_hours_query(tokens),
            TokenType::Prereqs => self.parse_prereqs_query(tokens),
            TokenType::Corereqs => self.parse_coreqs_query(tokens),
            TokenType::Enrollment => {
                if q < tokens.len() && *tokens[q].get_token_type() == TokenType::Cap {
                    self.parse_enrollment_cap_query(tokens)
                } else {
                    self.parse_enrollment_query(tokens)
                }
            },
            TokenType::Size => self.parse_enrollment_query(tokens),
            TokenType::Cap => self.parse_enrollment_cap_query(tokens),
            TokenType::Full => self.parse_full_query(tokens),
            TokenType::Method => self.parse_instruction_method_query(tokens),
            TokenType::Campus => self.parse_campus_query(tokens),
            TokenType::Meeting => {
                if q < tokens.len() && *tokens[q].get_token_type() == TokenType::Type {
                    self.token_pointer = q + 1;
                    self.parse_meeting_type_query(tokens)
                } else {
                    Err(fail_expected(type_word_vec(), "meeting", q, Vec::new()))
                }
            },
            TokenType::Type => self.parse_meeting_type_query(tokens),
            TokenType::Time | TokenType::Start | TokenType::End => self.parse_time_query(tokens),
            TokenType::Monday | TokenType::Tuesday | TokenType::Wednesday | TokenType::Thursday
            | TokenType::Friday | TokenType::Saturday | TokenType::Sunday => self.parse_day_query(tokens),
            _ => Err(fail_here(self.describe(&t), "query start", entities_short_vec(), t)),
        };
        wrap_result(sub, NodeType::EntityQuery, None)
    }
}

// ---------------------------------------------------------------------------
// Logical structure and the whole query
// ---------------------------------------------------------------------------

/// `<logical_factor> ::= "not" <logical_factor> | "(" <query> ")" |
/// <entity_query>`.
pub open spec fn factor_parse(inp: Seq<char>, ts: Seq<Token>, p: int) -> Parsed
    decreases ts.len() - p, 2int,
{
    if p < ts.len() && ts[p].kind() == TokenType::Not {
        match factor_parse(inp, ts, p + 1) {
            Parsed::Node(f, p1) => Parsed::Node(
                node1(
                    NodeType::LogicalFactor,
                    "LogicalFactor"@,
                    None,
                    node1(NodeType::T(TokenType::Not), debug_name(TokenType::Not), Some(ts[p]), f),
                ),
                p1,
            ),
            other => other,
        }
    } else if p < ts.len() && ts[p].kind() == TokenType::LeftParen {
        match query_parse(inp, ts, p + 1) {
            Parsed::Node(q, p1) => if p1 >= ts.len() {
                missing("Expected closing parenthesis"@)
            } else if ts[p1].kind() != TokenType::RightParen {
                Parsed::Error(SyntaxErrorV::UnclosedParenthesis, one(ts[p]))
            } else {
                Parsed::Node(node1(NodeType::LogicalFactor, "LogicalFactor"@, None, q), p1 + 1)
            },
            other => other,
        }
    } else {
        wrap(entity_parse(inp, ts, p), NodeType::LogicalFactor, None)
    }
}

/// `("and" <logical_factor>)*` after the factors read so far, which are
/// combined into `acc`, left to right.
pub open spec fn term_tail_parse(inp: Seq<char>, ts: Seq<Token>, p: int, acc: SNode) -> Parsed
    decreases ts.len() - p, 1int,
{
    if p < ts.len() && ts[p].kind() == TokenType::And {
        match factor_parse(inp, ts, p + 1) {
            Parsed::Node(g, p2) => if p + 1 < p2 <= ts.len() {
                term_tail_parse(
                    inp,
                    ts,
                    p2,
                    node2(NodeType::T(TokenType::And), debug_name(TokenType::And), Some(ts[p]), acc, g),
                )
            } else {
                Parsed::Stuck
            },
            other => other,
        }
    } else {
        Parsed::Node(acc, p)
    }
}

/// `<logical_term> ::= <logical_factor> ("and" <logical_factor>)*`.
pub open spec fn term_parse(inp: Seq<char>, ts: Seq<Token>, p: int) -> Parsed
    decreases ts.len() - p, 3int,
{
    match factor_parse(inp, ts, p) {
        Parsed::Node(f, p1) => if p < p1 <= ts.len() {
            wrap(term_tail_parse(inp, ts, p1, f), NodeType::LogicalTerm, None)
        } else {
            Parsed::Stuck
        },
        other => other,
    }
}

/// `("or" <logical_term>)*` after the terms read so far, which are combined
/// into `acc`, left to right.
pub open spec fn query_tail_parse(inp: Seq<char>, ts: Seq<Token>, p: int, acc: SNode) -> Parsed
    decreases ts.len() - p, 0int,
{
    if p < ts.len() && ts[p].kind() == TokenType::Or {
        match term_parse(inp, ts, p + 1) {
            Parsed::Node(g, p2) => if p + 1 < p2 <= ts.len() {
                query_tail_parse(
                    inp,
                    ts,
                    p2,
                    node2(NodeType::T(TokenType::Or), debug_name(TokenType::Or), Some(ts[p]), acc, g),
                )
            } else {
                Parsed::Stuck
            },
            other => other,
        }
    } else {
        Parsed::Node(acc, p)
    }
}

/// `<query> ::= <logical_term> ("or" <logical_term>)*`.
pub open spec fn query_parse(inp: Seq<char>, ts: Seq<Token>, p: int) -> Parsed
    decreases ts.len() - p, 4int,
{
    match term_parse(inp, ts, p) {
        Parsed::Node(t, p1) => if p < p1 <= ts.len() {
            wrap(query_tail_parse(inp, ts, p1, t), NodeType::Query, None)
        } else {
            Parsed::Stuck
        },
        other => other,
    }
}

/// `or` binds more loosely than `and`: factors `a and b or c` read as
/// `(a and b) or c`, an `or` of two terms whose first is the `and` of `a`
/// and `b`; when they make up the whole token stream, that is what parsing
/// gives.
pub proof fn lemma_and_binds_tighter_than_or(
    inp: Seq<char>,
    ts: Seq<Token>,
    p0: int,
    a: SNode,
    p1: int,
    b: SNode,
    p2: int,
    c: SNode,
    p3: int,
)
    requires
        0 <= p0 < p1,
        p1 + 1 < p2,
        p2 + 1 < p3 <= ts.len(),
        factor_parse(inp, ts, p0) == Parsed::Node(a, p1),
        ts[p1].kind() == TokenType::And,
        factor_parse(inp, ts, p1 + 1) == Parsed::Node(b, p2),
        ts[p2].kind() == TokenType::Or,
        factor_parse(inp, ts, p2 + 1) == Parsed::Node(c, p3),
        p3 == ts.len() || (ts[p3].kind() != TokenType::And && ts[p3].kind() != TokenType::Or),
    ensures
        p0 == 0 && p3 == ts.len() ==> parse_outcome(inp, ts) == query_parse(inp, ts, p0),
        query_parse(inp, ts, p0) == Parsed::Node(
            node1(
                NodeType::Query,
                "Query"@,
                None,
                node2(
                    NodeType::T(TokenType::Or),
                    debug_name(TokenType::Or),
                    Some(ts[p2]),
                    node1(
                        NodeType::LogicalTerm,
                        "LogicalTerm"@,
                        None,
                        node2(NodeType::T(TokenType::And), debug_name(TokenType::And), Some(ts[p1]), a, b),
                    ),
                    node1(NodeType::LogicalTerm, "LogicalTerm"@, None, c),
                ),
            ),
            p3,
        ),
{
    let ab = node2(NodeType::T(TokenType::And), debug_name(TokenType::And), Some(ts[p1]), a, b);
    assert(term_tail_parse(inp, ts, p2, ab) == Parsed::Node(ab, p2));
    assert(term_tail_parse(inp, ts, p1, a) == Parsed::Node(ab, p2));
    assert(term_tail_parse(inp, ts, p3, c) == Parsed::Node(c, p3));
    let tab = node1(NodeType::LogicalTerm, node_type_name(NodeType::LogicalTerm), None, ab);
    let tc = node1(NodeType::LogicalTerm, node_type_name(NodeType::LogicalTerm), None, c);
    assert(term_parse(inp, ts, p0) == Parsed::Node(tab, p2));
    assert(term_parse(inp, ts, p2 + 1) == Parsed::Node(tc, p3));
    let or_node = node2(NodeType::T(TokenType::Or), debug_name(TokenType::Or), Some(ts[p2]), tab, tc);
    assert(query_tail_parse(inp, ts, p3, or_node) == Parsed::Node(or_node, p3));
    assert(query_tail_parse(inp, ts, p2, tab) == Parsed::Node(or_node, p3));
}

/// `and` binds tighter than `or` on the right too: factors `a or b and c`
/// read as `a or (b and c)`; when they make up the whole token stream, that
/// is what parsing gives.
pub proof fn lemma_or_of_and(
    inp: Seq<char>,
    ts: Seq<Token>,
    p0: int,
    a: SNode,
    p1: int,
    b: SNode,
    p2: int,
    c: SNode,
    p3: int,
)
    requires
        0 <= p0 < p1,
        p1 + 1 < p2,
        p2 + 1 < p3 <= ts.len(),
        factor_parse(inp, ts, p0) == Parsed::Node(a, p1),
        ts[p1].kind() == TokenType::Or,
        factor_parse(inp, ts, p1 + 1) == Parsed::Node(b, p2),
        ts[p2].kind() == TokenType::And,
        factor_parse(inp, ts, p2 + 1) == Parsed::Node(c, p3),
        p3 == ts.len() || (ts[p3].kind() != TokenType::And && ts[p3].kind() != TokenType::Or),
    ensures
        ({
            let q = node1(
                NodeType::Query,
                "Query"@,
                None,
                node2(
                    NodeType::T(TokenType::Or),
                    debug_name(TokenType::Or),
                    Some(ts[p1]),
                    node1(NodeType::LogicalTerm, "LogicalTerm"@, None, a),
                    node1(
                        NodeType::LogicalTerm,
                        "LogicalTerm"@,
                        None,
                        node2(NodeType::T(TokenType::And), debug_name(TokenType::And), Some(ts[p2]), b, c),
                    ),
                ),
            );
            &&& query_parse(inp, ts, p0) == Parsed::Node(q, p3)
            &&& (p0 == 0 && p3 == ts.len() ==> parse_outcome(inp, ts) == Parsed::Node(q, p3))
        }),
{
    let bc = node2(NodeType::T(TokenType::And), debug_name(TokenType::And), Some(ts[p2]), b, c);
    assert(term_tail_parse(inp, ts, p1, a) == Parsed::Node(a, p1));
    assert(term_tail_parse(inp, ts, p3, bc) == Parsed::Node(bc, p3));
    assert(term_tail_parse(inp, ts, p2, b) == Parsed::Node(bc, p3));
    let ta = node1(NodeType::LogicalTerm, node_type_name(NodeType::LogicalTerm), None, a);
    let tbc = node1(NodeType::LogicalTerm, node_type_name(NodeType::LogicalTerm), None, bc);
    assert(term_parse(inp, ts, p0) == Parsed::Node(ta, p1));
    assert(term_parse(inp, ts, p1 + 1) == Parsed::Node(tbc, p3));
    let or_node = node2(NodeType::T(TokenType::Or), debug_name(TokenType::Or), Some(ts[p1]), ta, tbc);
    assert(query_tail_parse(inp, ts, p3, or_node) == Parsed::Node(or_node, p3));
    assert(query_tail_parse(inp, ts, p1, ta) == Parsed::Node(or_node, p3));
}

/// `and` groups to the left: factors `a and b and c` read as
/// `(a and b) and c`.
pub proof fn lemma_and_groups_left(
    inp: Seq<char>,
    ts: Seq<Token>,
    p0: int,
    a: SNode,
    p1: int,
    b: SNode,
    p2: int,
    c: SNode,
    p3: int,
)
    requires
        0 <= p0 < p1,
        p1 + 1 < p2,
        p2 + 1 < p3 <= ts.len(),
        factor_parse(inp, ts, p0) == Parsed::Node(a, p1),
        ts[p1].kind() == TokenType::And,
        factor_parse(inp, ts, p1 + 1) == Parsed::Node(b, p2),
        ts[p2].kind() == TokenType::And,
        factor_parse(inp, ts, p2 + 1) == Parsed::Node(c, p3),
        p3 == ts.len() || ts[p3].kind() != TokenType::And,
    ensures
        term_parse(inp, ts, p0) == Parsed::Node(
            node1(
                NodeType::LogicalTerm,
                "LogicalTerm"@,
                None,
                node2(
                    NodeType::T(TokenType::And),
                    debug_name(TokenType::And),
                    Some(ts[p2]),
                    node2(NodeType::T(TokenType::And), debug_name(TokenType::And), Some(ts[p1]), a, b),
                    c,
                ),
            ),
            p3,
        ),
{
    let ab = node2(NodeType::T(TokenType::And), debug_name(TokenType::And), Some(ts[p1]), a, b);
    let abc = node2(NodeType::T(TokenType::And), debug_name(TokenType::And), Some(ts[p2]), ab, c);
    assert(term_tail_parse(inp, ts, p3, abc) == Parsed::Node(abc, p3));
    assert(term_tail_parse(inp, ts, p2, ab) == Parsed::Node(abc, p3));
    assert(term_tail_parse(inp, ts, p1, a) == Parsed::Node(abc, p3));
}

/// `or` groups to the left: terms `a or b or c` read as `(a or b) or c`;
/// when they make up the whole token stream, that is what parsing gives.
pub proof fn lemma_or_groups_left(
    inp: Seq<char>,
    ts: Seq<Token>,
    p0: int,
    a: SNode,
    p1: int,
    b: SNode,
    p2: int,
    c: SNode,
    p3: int,
)
    requires
        0 <= p0 < p1,
        p1 + 1 < p2,
        p2 + 1 < p3 <= ts.len(),
        term_parse(inp, ts, p0) == Parsed::Node(a, p1),
        ts[p1].kind() == TokenType::Or,
        term_parse(inp, ts, p1 + 1) == Parsed::Node(b, p2),
        ts[p2].kind() == TokenType::Or,
        term_parse(inp, ts, p2 + 1) == Parsed::Node(c, p3),
        p3 == ts.len() || ts[p3].kind() != TokenType::Or,
    ensures
        p0 == 0 && p3 == ts.len() ==> parse_outcome(inp, ts) == query_parse(inp, ts, p0),
        query_parse(inp, ts, p0) == Parsed::Node(
            node1(
                NodeType::Query,
                "Query"@,
                None,
                node2(
                    NodeType::T(TokenType::Or),
                    debug_name(TokenType::Or),
                    Some(ts[p2]),
                    node2(NodeType::T(TokenType::Or), debug_name(TokenType::Or), Some(ts[p1]), a, b),
                    c,
                ),
            ),
            p3,
        ),
{
    let ab = node2(NodeType::T(TokenType::Or), debug_name(TokenType::Or), Some(ts[p1]), a, b);
    let abc = node2(NodeType::T(TokenType::Or), debug_name(TokenType::Or), Some(ts[p2]), ab, c);
    assert(query_tail_parse(inp, ts, p3, abc) == Parsed::Node(abc, p3));
    assert(query_tail_parse(inp, ts, p2, ab) == Parsed::Node(abc, p3));
    assert(query_tail_parse(inp, ts, p1, a) == Parsed::Node(abc, p3));
}

/// The outcome of parsing a whole token stream: an empty stream is an
/// `EmptyQuery`, and a query must consume every token (a token left over is
/// reported as out of place at the end of the query).
pub open spec fn parse_outcome(inp: Seq<char>, ts: Seq<Token>) -> Parsed {
    if ts.len() == 0 {
        Parsed::Error(SyntaxErrorV::EmptyQuery, Seq::empty())
    } else {
        match query_parse(inp, ts, 0) {
            Parsed::Node(q, p1) => if p1 < ts.len() {
                wrong_here(tok_desc(inp, ts[p1]), "end of query"@, query_end(), ts[p1])
            } else if p1 == ts.len() {
                Parsed::Node(q, p1)
            } else {
                Parsed::Stuck
            },
            other => other,
        }
    }
}

/// The value of what `Parser::parse` returns, with `n` the number of tokens.
pub open spec fn ast_outcome(r: Result<Ast, (SyntaxError, Vec<Token>)>, n: int) -> Parsed {
    match r {
        Ok(a) => match a.head {
            Some(h) => Parsed::Node(h@, n),
            None => Parsed::Stuck,
        },
        Err((e, v)) => Parsed::Error(e@, v@),
    }
}

/// Suggestions by the kind of the last token, offered where a token is
/// missing.
pub open spec fn context_suggestions(ts: Seq<Token>) -> Seq<Seq<char>> {
    if ts.len() == 0 {
        entities()
    } else {
        match ts.last().kind() {
            TokenType::Prof | TokenType::Subject | TokenType::Title | TokenType::Description
            | TokenType::Number | TokenType::Campus | TokenType::Method | TokenType::Full
            | TokenType::Type | TokenType::Monday | TokenType::Tuesday | TokenType::Wednesday
            | TokenType::Thursday | TokenType::Friday | TokenType::Saturday | TokenType::Sunday
            | TokenType::Prereqs | TokenType::Corereqs => string_conditions(),
            TokenType::Course => course_context(),
            TokenType::Section => section_context(),
            TokenType::Credit => hours_word(),
            TokenType::Hours => numeric_binops(),
            TokenType::Meeting => type_word(),
            TokenType::Size | TokenType::Enrollment | TokenType::Cap | TokenType::Start
            | TokenType::End => numeric_binops(),
            TokenType::Identifier | TokenType::Alphanumeric | TokenType::String
            | TokenType::Integer | TokenType::Time => logical_ops(),
            TokenType::And | TokenType::Or => entities_next(),
            _ => Seq::empty(),
        }
    }
}

/// Each term reworded for completion.
pub open spec fn friendly_all(terms: Seq<Seq<char>>) -> Seq<Seq<char>> {
    terms.map_values(|t: Seq<char>| friendly_for_completion(t))
}

/// Completion suggestions: `and`/`or` after a complete query; otherwise
/// what the syntax error expected or suggested, reworded; the suggestions by
/// the last token where a token is missing; the entities for an empty query.
pub open spec fn completions(inp: Seq<char>, ts: Seq<Token>) -> Seq<Seq<char>> {
    match parse_outcome(inp, ts) {
        Parsed::Node(_, _) => logical_ops(),
        Parsed::Error(SyntaxErrorV::ExpectedAfter { expected, .. }, _) => friendly_all(expected),
        Parsed::Error(SyntaxErrorV::InvalidContext { suggestions, .. }, _) => friendly_all(suggestions),
        Parsed::Error(SyntaxErrorV::MissingToken(_), _) => context_suggestions(ts),
        Parsed::Error(SyntaxErrorV::EmptyQuery, _) => entities(),
        _ => Seq::empty(),
    }
}

fn friendly_terms(terms: &Vec<String>) -> (r: Vec<String>)
    ensures
        r.deep_view() == friendly_all(terms.deep_view()),
{
    let mut r: Vec<String> = Vec::new();
    let mut i: usize = 0;
    while i < terms.len()
        invariant
            i <= terms.len(),
            r.deep_view() == friendly_all(terms.deep_view().subrange(0, i as int)),
        decreases terms.len() - i,
    {
        let f = make_user_friendly_for_completion(terms[i].as_str());
        let ghost before = r.deep_view();
        r.push(f);
        proof {
            assert(terms.deep_view()[i as int] == terms[i as int]@);
            assert(terms.deep_view().subrange(0, i + 1) =~= terms.deep_view().subrange(0, i as int).push(terms[i as int]@));
            assert(r.deep_view() =~= before.push(f@));
            assert(friendly_all(terms.deep_view().subrange(0, i + 1)) =~= friendly_all(terms.deep_view().subrange(0, i as int)).push(f@));
        }
        i = i + 1;
    }
    assert(terms.deep_view().subrange(0, i as int) =~= terms.deep_view());
    r
}

impl Parser {
    /// Parses a logical factor.
    fn parse_logical_factor(&mut self, tokens: &Vec<Token>) -> (r: Result<TreeNode, Failure>)
        requires
            old(self).token_pointer <= tokens.len(),
        ensures
            final(self).input_string == old(self).input_string,
            advanced(r, old(self).token_pointer, final(self).token_pointer, tokens.len() as int),
            result_view(r, final(self).token_pointer) == factor_parse(
                old(self).input_string@,
                tokens@,
                old(self).token_pointer as int,
            ),
        decreases tokens@.len() - old(self).token_pointer, 2int,
    {
        let p = self.token_pointer;
        if p < tokens.len() && *tokens[p].get_token_type() == TokenType::Not {
            let not_token = tokens[p];
            self.token_pointer = p + 1;
            let factor = match self.parse_logical_factor(tokens) {
                Ok(f) => f,
                Err(e) => return Err(e),
            };
            let not_node = TreeNode::with1(
                NodeType::T(TokenType::Not),
                NodeType::T(TokenType::Not).to_string(),
                Some(not_token),
                factor,
            );
            return Ok(TreeNode::with1(NodeType::LogicalFactor, NodeType::LogicalFactor.to_string(), None, not_node));
        }
        if p < tokens.len() && *tokens[p].get_token_type() == TokenType::LeftParen {
            let left_paren = tokens[p];
            self.token_pointer = p + 1;
            let query = match self.parse_query(tokens) {
                Ok(q) => q,
                Err(e) => return Err(e),
            };
            let p1 = self.token_pointer;
            if p1 >= tokens.len() {
                return Err(fail_missing("Expected closing parenthesis"));
            }
            let right_paren = tokens[p1];
            self.token_pointer = p1 + 1;
            if *right_paren.get_token_type() != TokenType::RightParen {
                return Err(Failure::Syntax(SyntaxError::UnclosedParenthesis, one_token(left_paren)));
            }
            return Ok(TreeNode::with1(NodeType::LogicalFactor, NodeType::LogicalFactor.to_string(), None, query));
        }
        let entity = self.parse_entity_query(tokens);
        wrap_result(entity, NodeType::LogicalFactor, None)
    }

    /// Parses a logical term: factors joined by `and`.
    fn parse_logical_term(&mut self, tokens: &Vec<Token>) -> (r: Result<TreeNode, Failure>)
        requires
            old(self).token_pointer <= tokens.len(),
        ensures
            final(self).input_string == old(self).input_string,
            advanced(r, old(self).token_pointer, final(self).token_pointer, tokens.len() as int),
            result_view(r, final(self).token_pointer) == term_parse(
                old(self).input_string@,
                tokens@,
                old(self).token_pointer as int,
            ),
        decreases tokens@.len() - old(self).token_pointer, 3int,
    {
        let ghost inp = self.input_string@;
        let ghost s0 = self.input_string;
        let p0 = self.token_pointer;
        let mut acc = match self.parse_logical_factor(tokens) {
            Ok(f) => f,
            Err(e) => return Err(e),
        };
        loop
            invariant
                self.input_string == s0,
                old(self).input_string == s0,
                old(self).token_pointer == p0,
                inp == s0@,
                p0 < self.token_pointer <= tokens.len(),
                term_parse(inp, tokens@, p0 as int) == wrap(
                    term_tail_parse(inp, tokens@, self.token_pointer as int, acc@),
                    NodeType::LogicalTerm,
                    None,
                ),
            decreases tokens.len() - self.token_pointer,
        {
            let p = self.token_pointer;
            if p >= tokens.len() || *tokens[p].get_token_type() != TokenType::And {
                return Ok(TreeNode::with1(NodeType::LogicalTerm, NodeType::LogicalTerm.to_string(), None, acc));
            }
            let and_token = tokens[p];
            self.token_pointer = p + 1;
            let next = match self.parse_logical_factor(tokens) {
                Ok(f) => f,
                Err(e) => return Err(e),
            };
            acc = TreeNode::with2(
                NodeType::T(TokenType::And),
                NodeType::T(TokenType::And).to_string(),
                Some(and_token),
                acc,
                next,
            );
        }
    }

    /// Parses a query: terms joined by `or`.
    fn parse_query(&mut self, tokens: &Vec<Token>) -> (r: Result<TreeNode, Failure>)
        requires
            old(self).token_pointer <= tokens.len(),
        ensures
            final(self).input_string == old(self).input_string,
            advanced(r, old(self).token_pointer, final(self).token_pointer, tokens.len() as int),
            result_view(r, final(self).token_pointer) == query_parse(
                old(self).input_string@,
                tokens@,
                old(self).token_pointer as int,
            ),
        decreases tokens@.len() - old(self).token_pointer, 4int,
    {
        let ghost inp = self.input_string@;
        let ghost s0 = self.input_string;
        let p0 = self.token_pointer;
        let mut acc = match self.parse_logical_term(tokens) {
            Ok(t) => t,
            Err(e) => return Err(e),
        };
        loop
            invariant
                self.input_string == s0,
                old(self).input_string == s0,
                old(self).token_pointer == p0,
                inp == s0@,
                p0 < self.token_pointer <= tokens.len(),
                query_parse(inp, tokens@, p0 as int) == wrap(
                    query_tail_parse(inp, tokens@, self.token_pointer as int, acc@),
                    NodeType::Query,
                    None,
                ),
            decreases tokens.len() - self.token_pointer,
        {
            let p = self.token_pointer;
            if p >= tokens.len() || *tokens[p].get_token_type() != TokenType::Or {
                return Ok(TreeNode::with1(NodeType::Query, NodeType::Query.to_string(), None, acc));
            }
            let or_token = tokens[p];
            self.token_pointer = p + 1;
            let next = match self.parse_logical_term(tokens) {
                Ok(t) => t,
                Err(e) => return Err(e),
            };
            acc = TreeNode::with2(
                NodeType::T(TokenType::Or),
                NodeType::T(TokenType::Or).to_string(),
                Some(or_token),
                acc,
                next,
            );
        }
    }

    /// Parses the whole token stream.
    fn run_parse(&mut self, tokens: &Vec<Token>) -> (r: Result<Ast, Failure>)
        ensures
            final(self).input_string == old(self).input_string,
            match r {
                Ok(a) => (a.head matches Some(h) && parse_outcome(old(self).input_string@, tokens@)
                    == Parsed::Node(h@, tokens@.len() as int)),
                Err(Failure::Syntax(e, v)) => parse_outcome(old(self).input_string@, tokens@)
                    == Parsed::Error(e@, v@),
                Err(Failure::Stuck) => parse_outcome(old(self).input_string@, tokens@) is Stuck,
            },
    {
        self.token_pointer = 0;
        self.ast = Ast::new();
        if tokens.len() == 0 {
            return Err(Failure::Syntax(SyntaxError::EmptyQuery, Vec::new()));
        }
        let query = match self.parse_query(tokens) {
            Ok(q) => q,
            Err(e) => return Err(e),
        };
        self.ast.head = Some(query);
        let p = self.token_pointer;
        if p < tokens.len() {
            let t = tokens[p];
            return Err(fail_here(self.describe(&t), "end of query", query_end_vec(), t));
        }
        let head = self.ast.head.take();
        Ok(Ast { head })
    }

    /// Parses the tokens into a syntax tree, or reports the first syntax
    /// error with the tokens it concerns.
    pub fn parse(&mut self, tokens: &Vec<Token>) -> (r: Result<Ast, (SyntaxError, Vec<Token>)>)
        requires
            !(parse_outcome(old(self).input(), tokens@) is Stuck),
        ensures
            final(self).input() == old(self).input(),
            ast_outcome(r, tokens@.len() as int) == parse_outcome(old(self).input(), tokens@),
            r is Ok ==> r->Ok_0.head is Some,
            tokens@.len() == 0 ==> (r matches Err((SyntaxError::EmptyQuery, v)) && v@.len() == 0),
    {
        match self.run_parse(tokens) {
            Ok(a) => Ok(a),
            Err(Failure::Syntax(e, v)) => Err((e, v)),
            Err(Failure::Stuck) => Err((SyntaxError::EmptyQuery, Vec::new())),
        }
    }

    /// Parses the tokens as `parse` does, or gives `None` where `parse`
    /// cannot go on (its precondition fails).
    pub fn try_parse(&mut self, tokens: &Vec<Token>) -> (r: Option<Result<Ast, (SyntaxError, Vec<Token>)>>)
        ensures
            final(self).input() == old(self).input(),
            r is None <==> parse_outcome(old(self).input(), tokens@) is Stuck,
            r matches Some(x) ==> ast_outcome(x, tokens@.len() as int) == parse_outcome(old(self).input(), tokens@),
    {
        match self.run_parse(tokens) {
            Ok(a) => Some(Ok(a)),
            Err(Failure::Syntax(e, v)) => Some(Err((e, v))),
            Err(Failure::Stuck) => None,
        }
    }

    /// Suggestions by the kind of the last token.
    fn get_context_suggestions(&self, tokens: &Vec<Token>) -> (r: Vec<String>)
        ensures
            r.deep_view() == context_suggestions(tokens@),
    {
        if tokens.len() == 0 {
            return entities_vec();
        }
        match *tokens[tokens.len() - 1].get_token_type() {
            TokenType::Prof | TokenType::Subject | TokenType::Title | TokenType::Description
            | TokenType::Number | TokenType::Campus | TokenType::Method | TokenType::Full
            | TokenType::Type | TokenType::Monday | TokenType::Tuesday | TokenType::Wednesday
            | TokenType::Thursday | TokenType::Friday | TokenType::Saturday | TokenType::Sunday
            | TokenType::Prereqs | TokenType::Corereqs => string_conditions_vec(),
            TokenType::Course => course_context_vec(),
            TokenType::Section => section_context_vec(),
            TokenType::Credit => hours_word_vec(),
            TokenType::Hours => numeric_binops_vec(),
            TokenType::Meeting => type_word_vec(),
            TokenType::Size | TokenType::Enrollment | TokenType::Cap | TokenType::Start
            | TokenType::End => numeric_binops_vec(),
            TokenType::Identifier | TokenType::Alphanumeric | TokenType::String
            | TokenType::Integer | TokenType::Time => logical_ops_vec(),
            TokenType::And | TokenType::Or => entities_next_vec(),
            _ => {
                let r: Vec<String> = Vec::new();
                assert(r.deep_view() =~= Seq::<Seq<char>>::empty());
                r
            },
        }
    }

    /// Completion suggestions for the tokens typed so far.
    pub fn get_completion_suggestions(&mut self, tokens: &Vec<Token>) -> (r: Vec<String>)
        requires
            !(parse_outcome(old(self).input(), tokens@) is Stuck),
        ensures
            final(self).input() == old(self).input(),
            r.deep_view() == completions(old(self).input(), tokens@),
    {
        self.token_pointer = 0;
        self.ast = Ast::new();
        match self.parse(tokens) {
            Ok(_) => logical_ops_vec(),
            Err((error, _)) => match error {
                SyntaxError::ExpectedAfter { expected, .. } => friendly_terms(&expected),
                SyntaxError::InvalidContext { suggestions, .. } => friendly_terms(&suggestions),
                SyntaxError::MissingToken(_) => self.get_context_suggestions(tokens),
                SyntaxError::EmptyQuery => entities_vec(),
                _ => {
                    let r: Vec<String> = Vec::new();
                    assert(r.deep_view() =~= Seq::<Seq<char>>::empty());
                    r
                },
            },
        }
    }
}

// ---------------------------------------------------------------------------
// Properties of parsing
// ---------------------------------------------------------------------------

/// A query parses only as a whole: a successful parse has consumed every
/// token, and its tree is a `Query` node with a single child.
pub proof fn lemma_parse_consumes_all(inp: Seq<char>, ts: Seq<Token>)
    ensures
        parse_outcome(inp, ts) matches Parsed::Node(q, p) ==> p == ts.len() && q.node_type == NodeType::Query
            && q.children.len() == 1 && q.token is None,
{
    if ts.len() > 0 {
        match term_parse(inp, ts, 0) {
            Parsed::Node(t, p1) => if 0 < p1 <= ts.len() {
                assert(query_parse(inp, ts, 0) == wrap(query_tail_parse(inp, ts, p1, t), NodeType::Query, None));
            },
            _ => {},
        }
    }
}

/// An empty token stream is an empty query, and completing it offers the
/// query keywords.
pub proof fn lemma_empty_query(inp: Seq<char>)
    ensures
        parse_outcome(inp, Seq::empty()) == Parsed::Error(SyntaxErrorV::EmptyQuery, Seq::empty()),
        completions(inp, Seq::empty()) == entities(),
{
}

/// Once the tokens form a complete query, the only completions are the
/// logical connectives `and` and `or`.
pub proof fn lemma_complete_query_completions(inp: Seq<char>, ts: Seq<Token>)
    requires
        parse_outcome(inp, ts) is Node,
    ensures
        completions(inp, ts) == logical_ops(),
{
}

/// A syntax error that names what it expected offers those words, reworded,
/// as completions.
pub proof fn lemma_error_completions(inp: Seq<char>, ts: Seq<Token>)
    ensures
        parse_outcome(inp, ts) matches Parsed::Error(SyntaxErrorV::ExpectedAfter { expected, .. }, _)
            ==> completions(inp, ts) == friendly_all(expected),
        parse_outcome(inp, ts) matches Parsed::Error(SyntaxErrorV::InvalidContext { suggestions, .. }, _)
            ==> completions(inp, ts) == friendly_all(suggestions),
{
}

// ---------------------------------------------------------------------------
// Syntax errors point into the query
// ---------------------------------------------------------------------------

/// Every token an error result points at is one of the tokens `ts`.
pub open spec fn points_into(r: Parsed, ts: Seq<Token>) -> bool {
    r matches Parsed::Error(_, v) ==> forall|i: int| 0 <= i < v.len() ==> #[trigger] ts.contains(v[i])
}

proof fn lemma_in(ts: Seq<Token>, k: int)
    requires
        0 <= k < ts.len(),
    ensures
        ts.contains(ts[k]),
{
}

proof fn lemma_condition_points(inp: Seq<char>, ts: Seq<Token>, p: int)
    requires
        0 <= p,
    ensures
        points_into(condition_parse(inp, ts, p), ts),
{
    if p < ts.len() {
        lemma_in(ts, p);
    }
}

proof fn lemma_binop_points(ts: Seq<Token>, p: int)
    requires
        0 <= p,
    ensures
        points_into(binop_parse(ts, p), ts),
{
    if p < ts.len() {
        lemma_in(ts, p);
    }
}

proof fn lemma_string_points(inp: Seq<char>, ts: Seq<Token>, p: int)
    requires
        0 <= p,
    ensures
        points_into(string_parse(inp, ts, p), ts),
        points_into(identifier_parse(inp, ts, p), ts),
{
    if p < ts.len() {
        lemma_in(ts, p);
    }
}

proof fn lemma_cond_string_points(inp: Seq<char>, ts: Seq<Token>, p: int, nt: NodeType, main: Token, msg: Seq<char>)
    requires
        0 <= p,
    ensures
        points_into(cond_string_parse(inp, ts, p, nt, main, msg), ts),
        points_into(direct_course_parse(inp, ts, p), ts),
{
    lemma_condition_points(inp, ts, p);
    match condition_parse(inp, ts, p) {
        Parsed::Node(_, p1) => lemma_string_points(inp, ts, p1),
        _ => {},
    }
}

proof fn lemma_binop_int_points(inp: Seq<char>, ts: Seq<Token>, p: int, nt: NodeType, main: Token, msg: Seq<char>)
    requires
        0 <= p,
    ensures
        points_into(binop_int_parse(inp, ts, p, nt, main, msg), ts),
{
    lemma_binop_points(ts, p);
}

proof fn lemma_fields_point(inp: Seq<char>, ts: Seq<Token>, p: int)
    requires
        1 <= p,
    ensures
        forall|nt: NodeType| #[trigger] points_into(field_parse(inp, ts, p, nt), ts),
        points_into(meeting_type_parse(inp, ts, p), ts),
        points_into(credit_parse(inp, ts, p), ts),
        points_into(cap_parse(inp, ts, p), ts),
        points_into(enrollment_parse(inp, ts, p), ts),
{
    assert forall|nt: NodeType| #[trigger] points_into(field_parse(inp, ts, p, nt), ts) by {
        lemma_cond_string_points(inp, ts, p, nt, ts[p - 1], field_message(nt));
    }
    let main = if p > 1 && ts[p - 2].kind() == TokenType::Meeting { ts[p - 2] } else { ts[p - 1] };
    lemma_cond_string_points(inp, ts, p, NodeType::MeetingTypeQuery, main, field_message(NodeType::MeetingTypeQuery));
    if p < ts.len() {
        lemma_in(ts, p);
    }
    lemma_binop_int_points(inp, ts, p + 1, NodeType::CreditHoursQuery, ts[p - 1], field_message(NodeType::CreditHoursQuery));
    lemma_binop_int_points(inp, ts, p, NodeType::EnrollmentCapQuery, ts[p - 1], field_message(NodeType::EnrollmentCapQuery));
    lemma_binop_int_points(inp, ts, p + 1, NodeType::EnrollmentCapQuery, ts[p - 1], field_message(NodeType::EnrollmentCapQuery));
    lemma_binop_int_points(inp, ts, p, NodeType::EnrollmentQuery, ts[p - 1], field_message(NodeType::EnrollmentQuery));
}

proof fn lemma_course_points(inp: Seq<char>, ts: Seq<Token>, p: int)
    requires
        1 <= p,
    ensures
        points_into(course_parse(inp, ts, p), ts),
        points_into(section_parse(inp, ts, p), ts),
{
    if p < ts.len() {
        lemma_in(ts, p);
        lemma_fields_point(inp, ts, p + 1);
        if p + 1 <= ts.len() {
            lemma_course_section_sub(inp, ts, p);
        }
    }
}

proof fn lemma_course_section_sub(inp: Seq<char>, ts: Seq<Token>, p: int)
    requires
        1 <= p < ts.len(),
    ensures
        points_into(course_parse(inp, ts, p), ts),
{
    lemma_in(ts, p);
    lemma_fields_point(inp, ts, p + 1);
}

proof fn lemma_time_query_points(inp: Seq<char>, ts: Seq<Token>, p: int)
    requires
        1 <= p <= ts.len(),
    ensures
        points_into(time_query_parse(inp, ts, p), ts),
{
    lemma_in(ts, p - 1);
    if p < ts.len() {
        lemma_in(ts, p);
    }
    if p + 1 < ts.len() {
        lemma_in(ts, p + 1);
    }
    lemma_binop_points(ts, p);
}

proof fn lemma_day_points(inp: Seq<char>, ts: Seq<Token>, p: int)
    requires
        1 <= p <= ts.len(),
    ensures
        points_into(day_parse(inp, ts, p), ts),
        forall|name: Seq<char>| #[trigger] points_into(day_helper_parse(inp, ts, p, name), ts),
{
    lemma_in(ts, p - 1);
    lemma_condition_points(inp, ts, p);
    let cond = if p >= ts.len() || is_logical(ts[p].kind()) {
        Parsed::Node(default_day_condition(), p)
    } else {
        condition_parse(inp, ts, p)
    };
    match cond {
        Parsed::Node(_, q) => {
            assert(q >= p);
            lemma_string_points(inp, ts, q);
        },
        _ => {},
    }
    assert forall|name: Seq<char>| #[trigger] points_into(day_helper_parse(inp, ts, p, name), ts) by {
    }
}

proof fn lemma_entity_points(inp: Seq<char>, ts: Seq<Token>, p: int)
    requires
        0 <= p <= ts.len(),
    ensures
        points_into(entity_parse(inp, ts, p), ts),
{
    if p < ts.len() {
        lemma_in(ts, p);
        lemma_fields_point(inp, ts, p + 1);
        lemma_fields_point(inp, ts, p + 2);
        lemma_course_points(inp, ts, p + 1);
        lemma_time_query_points(inp, ts, p + 1);
        lemma_day_points(inp, ts, p + 1);
    }
}

proof fn lemma_factor_points(inp: Seq<char>, ts: Seq<Token>, p: int)
    requires
        0 <= p <= ts.len(),
    ensures
        points_into(factor_parse(inp, ts, p), ts),
    decreases ts.len() - p, 2int,
{
    if p < ts.len() && ts[p].kind() == TokenType::Not {
        lemma_factor_points(inp, ts, p + 1);
    } else if p < ts.len() && ts[p].kind() == TokenType::LeftParen {
        lemma_in(ts, p);
        lemma_query_points(inp, ts, p + 1);
    } else {
        lemma_entity_points(inp, ts, p);
    }
}

proof fn lemma_term_tail_points(inp: Seq<char>, ts: Seq<Token>, p: int, acc: SNode)
    requires
        0 <= p <= ts.len(),
    ensures
        points_into(term_tail_parse(inp, ts, p, acc), ts),
    decreases ts.len() - p, 1int,
{
    if p < ts.len() && ts[p].kind() == TokenType::And {
        lemma_factor_points(inp, ts, p + 1);
        match factor_parse(inp, ts, p + 1) {
            Parsed::Node(g, p2) => if p + 1 < p2 <= ts.len() {
                lemma_term_tail_points(
                    inp,
                    ts,
                    p2,
                    node2(NodeType::T(TokenType::And), debug_name(TokenType::And), Some(ts[p]), acc, g),
                );
            },
            _ => {},
        }
    }
}

proof fn lemma_term_points(inp: Seq<char>, ts: Seq<Token>, p: int)
    requires
        0 <= p <= ts.len(),
    ensures
        points_into(term_parse(inp, ts, p), ts),
    decreases ts.len() - p, 3int,
{
    lemma_factor_points(inp, ts, p);
    match factor_parse(inp, ts, p) {
        Parsed::Node(f, p1) => if p < p1 <= ts.len() {
            lemma_term_tail_points(inp, ts, p1, f);
        },
        _ => {},
    }
}

proof fn lemma_query_tail_points(inp: Seq<char>, ts: Seq<Token>, p: int, acc: SNode)
    requires
        0 <= p <= ts.len(),
    ensures
        points_into(query_tail_parse(inp, ts, p, acc), ts),
        query_tail_parse(inp, ts, p, acc) matches Parsed::Node(_, q) ==> p <= q <= ts.len(),
    decreases ts.len() - p, 0int,
{
    if p < ts.len() && ts[p].kind() == TokenType::Or {
        lemma_term_points(inp, ts, p + 1);
        match term_parse(inp, ts, p + 1) {
            Parsed::Node(g, p2) => if p + 1 < p2 <= ts.len() {
                lemma_query_tail_points(
                    inp,
                    ts,
                    p2,
                    node2(NodeType::T(TokenType::Or), debug_name(TokenType::Or), Some(ts[p]), acc, g),
                );
            },
            _ => {},
        }
    }
}

proof fn lemma_query_points(inp: Seq<char>, ts: Seq<Token>, p: int)
    requires
        0 <= p <= ts.len(),
    ensures
        points_into(query_parse(inp, ts, p), ts),
        query_parse(inp, ts, p) matches Parsed::Node(_, q) ==> p < q <= ts.len(),
    decreases ts.len() - p, 4int,
{
    lemma_term_points(inp, ts, p);
    match term_parse(inp, ts, p) {
        Parsed::Node(t, p1) => if p < p1 <= ts.len() {
            lemma_query_tail_points(inp, ts, p1, t);
        },
        _ => {},
    }
}

/// A syntax error points only at tokens of the query: every token it
/// reports (and whose span the interface highlights) is one of the tokens
/// parsed.
pub proof fn lemma_syntax_errors_point_into_query(inp: Seq<char>, ts: Seq<Token>)
    ensures
        points_into(parse_outcome(inp, ts), ts),
{
    if ts.len() > 0 {
        lemma_query_points(inp, ts, 0);
        match query_parse(inp, ts, 0) {
            Parsed::Node(_, p1) => if 0 <= p1 < ts.len() {
                lemma_in(ts, p1);
            },
            _ => {},
        }
    }
}

/// Each keyword that opens an entity query gives the query of its own
/// field. A successful parse at `p` is an entity query holding one node,
/// whose type is the one the keyword at `p` names: `prof` a professor
/// query, `method` an instruction-method query, `campus` a campus query,
/// `prereqs` a prerequisites query, a day name a day query, and so on. The
/// node of a field keyword carries that keyword's token.
pub proof fn lemma_entity_keyword_field(inp: Seq<char>, ts: Seq<Token>, p: int)
    requires
        0 <= p < ts.len(),
    ensures
        entity_parse(inp, ts, p) matches Parsed::Node(n, _) ==> {
            let k = ts[p].kind();
            let f = n.children[0];
            let field = |nt: NodeType| f.node_type == nt && f.token == Some(ts[p]);
            &&& n.node_type == NodeType::EntityQuery
            &&& n.children.len() == 1
            &&& k == TokenType::Prof ==> field(NodeType::ProfessorQuery)
            &&& k == TokenType::Subject ==> field(NodeType::SubjectQuery)
            &&& k == TokenType::Title ==> field(NodeType::TitleQuery)
            &&& k == TokenType::Number ==> field(NodeType::NumberQuery)
            &&& k == TokenType::Description ==> field(NodeType::DescriptionQuery)
            &&& k == TokenType::Prereqs ==> field(NodeType::PrereqsQuery)
            &&& k == TokenType::Corereqs ==> field(NodeType::CoreqsQuery)
            &&& k == TokenType::Full ==> field(NodeType::FullQuery)
            &&& k == TokenType::Method ==> field(NodeType::InstructionMethodQuery)
            &&& k == TokenType::Campus ==> field(NodeType::CampusQuery)
            &&& k == TokenType::Credit ==> field(NodeType::CreditHoursQuery)
            &&& k == TokenType::Size ==> field(NodeType::EnrollmentQuery)
            &&& k == TokenType::Cap ==> field(NodeType::EnrollmentCapQuery)
            &&& k == TokenType::Enrollment ==> (f.token == Some(ts[p]) && (if p + 1 < ts.len()
                && ts[p + 1].kind() == TokenType::Cap {
                f.node_type == NodeType::EnrollmentCapQuery
            } else {
                f.node_type == NodeType::EnrollmentQuery
            }))
            &&& (k == TokenType::Type || k == TokenType::Meeting) ==> f.node_type
                == NodeType::MeetingTypeQuery
            &&& (k == TokenType::Time || k == TokenType::Start || k == TokenType::End)
                ==> f.node_type == NodeType::TimeQuery
            &&& (k == TokenType::Monday || k == TokenType::Tuesday || k == TokenType::Wednesday
                || k == TokenType::Thursday || k == TokenType::Friday || k == TokenType::Saturday
                || k == TokenType::Sunday) ==> f.node_type == NodeType::DayQuery
            &&& k == TokenType::Course ==> f.node_type == NodeType::CourseQuery
            &&& k == TokenType::Section ==> f.node_type == NodeType::SectionQuery
        },
{
}

/// After a keyword that compares a number or a time (`size`,
/// `enrollment`, `cap`, `hours`, `start`, `end`) the suggestions are the
/// comparison operators: they offer `<`, `>`, `<=`, `>=`, `=` and `!=`, and
/// no text condition (`contains`, `has`, `starts with`, `ends with`). After
/// the keyword of a text field or a day they are the text conditions, which
/// offer `contains`, `starts with` and `ends with`, and no ordering (`<`,
/// `>`).
pub proof fn lemma_suggestions_after_keyword(ts: Seq<Token>)
    requires
        ts.len() > 0,
    ensures
        ({
            let k = ts.last().kind();
            let s = context_suggestions(ts);
            (k == TokenType::Size || k == TokenType::Enrollment || k == TokenType::Cap || k
                == TokenType::Hours || k == TokenType::Start || k == TokenType::End) ==> {
                &&& s == numeric_binops()
                &&& s.contains("<"@) && s.contains(">"@) && s.contains("<="@) && s.contains(">="@)
                &&& s.contains("="@) && s.contains("!="@)
                &&& !s.contains("contains"@) && !s.contains("has"@) && !s.contains("starts with"@)
                &&& !s.contains("ends with"@)
            }
        }),
        ({
            let k = ts.last().kind();
            let s = context_suggestions(ts);
            (k == TokenType::Prof || k == TokenType::Subject || k == TokenType::Title || k
                == TokenType::Description || k == TokenType::Number || k == TokenType::Campus || k
                == TokenType::Method || k == TokenType::Full || k == TokenType::Type || k
                == TokenType::Prereqs || k == TokenType::Corereqs || k == TokenType::Monday || k
                == TokenType::Tuesday || k == TokenType::Wednesday || k == TokenType::Thursday || k
                == TokenType::Friday || k == TokenType::Saturday || k == TokenType::Sunday) ==> {
                &&& s == string_conditions()
                &&& s.contains("contains"@) && s.contains("starts with"@) && s.contains("ends with"@)
                &&& !s.contains("<"@) && !s.contains(">"@)
            }
        }),
{
    reveal_strlit("=");
    reveal_strlit("!=");
    reveal_strlit("<");
    reveal_strlit(">");
    reveal_strlit("<=");
    reveal_strlit(">=");
    reveal_strlit("is");
    reveal_strlit("equals");
    reveal_strlit("less than");
    reveal_strlit("greater than");
    reveal_strlit("at least");
    reveal_strlit("at most");
    reveal_strlit("more than");
    reveal_strlit("fewer than");
    reveal_strlit("contains");
    reveal_strlit("has");
    reveal_strlit("starts with");
    reveal_strlit("ends with");
    reveal_strlit("does not equal");
    let n = numeric_binops();
    let t = string_conditions();
    assert(n[0] == "="@ && n[1] == "!="@ && n[2] == "<"@ && n[3] == ">"@ && n[4] == "<="@ && n[5] == ">="@);
    assert(t[4] == "contains"@ && t[6] == "starts with"@ && t[7] == "ends with"@);
    assert(n[6] == "is"@ && n[7] == "equals"@ && n[8] == "less than"@ && n[9] == "greater than"@);
    assert(n[10] == "at least"@ && n[11] == "at most"@ && n[12] == "more than"@ && n[13]
        == "fewer than"@);
    assert(n.len() == 14);
    assert("="@[0] == '=' && "!="@[0] == '!' && "<"@[0] == '<' && ">"@[0] == '>' && "<="@[0] == '<'
        && ">="@[0] == '>' && "is"@[0] == 'i' && "equals"@[0] == 'e' && "less than"@[0] == 'l');
    assert("greater than"@[0] == 'g' && "at least"@[0] == 'a' && "at most"@[0] == 'a' && "more than"@[0]
        == 'm' && "fewer than"@[0] == 'f');
    assert("contains"@[0] == 'c' && "has"@[0] == 'h' && "starts with"@[0] == 's' && "ends with"@[0]
        == 'e' && "does not equal"@[0] == 'd');
    assert("equals"@.len() == 6 && "ends with"@.len() == 9);
    assert forall|i: int| 0 <= i < n.len() implies n[i] != "contains"@ && n[i] != "has"@ && n[i]
        != "starts with"@ && n[i] != "ends with"@ by {
        assert(i == 0 || i == 1 || i == 2 || i == 3 || i == 4 || i == 5 || i == 6 || i == 7 || i == 8
            || i == 9 || i == 10 || i == 11 || i == 12 || i == 13);
        assert(n[i].len() > 0 && n[i][0] != 'c' && n[i][0] != 'h' && n[i][0] != 's' && (n[i][0] != 'e'
            || n[i].len() == 6));
    }
    assert(t[0] == "is"@ && t[1] == "equals"@ && t[2] == "="@ && t[3] == "!="@ && t[5] == "has"@);
    assert(t[8] == "does not equal"@ && t.len() == 9);
    assert forall|i: int| 0 <= i < t.len() implies t[i] != "<"@ && t[i] != ">"@ by {
        assert(i == 0 || i == 1 || i == 2 || i == 3 || i == 4 || i == 5 || i == 6 || i == 7 || i == 8);
        assert(t[i].len() > 0 && t[i][0] != '<' && t[i][0] != '>');
    }
}

/// After `course`, each field keyword gives the query of its own field,
/// wrapped in a course query; after `section`, likewise, wrapped in a
/// section query (`instruction` names the instruction method).
pub proof fn lemma_sub_keyword_field(inp: Seq<char>, ts: Seq<Token>, p: int)
    requires
        1 <= p < ts.len(),
    ensures
        !is_course_condition(ts[p].kind()) ==> (course_parse(inp, ts, p) matches Parsed::Node(n, _) ==> {
            let k = ts[p].kind();
            let f = n.children[0];
            &&& n.node_type == NodeType::CourseQuery
            &&& k == TokenType::Subject ==> f.node_type == NodeType::SubjectQuery
            &&& k == TokenType::Number ==> f.node_type == NodeType::NumberQuery
            &&& k == TokenType::Title ==> f.node_type == NodeType::TitleQuery
            &&& k == TokenType::Description ==> f.node_type == NodeType::DescriptionQuery
            &&& k == TokenType::Prereqs ==> f.node_type == NodeType::PrereqsQuery
            &&& k == TokenType::Corereqs ==> f.node_type == NodeType::CoreqsQuery
        }),
        section_parse(inp, ts, p) matches Parsed::Node(n, _) ==> {
            let k = ts[p].kind();
            let f = n.children[0];
            &&& n.node_type == NodeType::SectionQuery
            &&& k == TokenType::Subject ==> f.node_type == NodeType::SubjectQuery
            &&& k == TokenType::Instruction ==> f.node_type == NodeType::InstructionMethodQuery
            &&& k == TokenType::Campus ==> f.node_type == NodeType::CampusQuery
            &&& k == TokenType::Full ==> f.node_type == NodeType::FullQuery
            &&& k == TokenType::Size ==> f.node_type == NodeType::EnrollmentQuery
            &&& k == TokenType::Cap ==> f.node_type == NodeType::EnrollmentCapQuery
            &&& k == TokenType::Course ==> f.node_type == NodeType::CourseQuery
        },
{
}

/// What is suggested after the other kinds of token: `hours` after
/// `credit`, `type` after `meeting`, `and` and `or` after a value, the
/// fields after `and` or `or` and at the start, the course fields and text
/// conditions after `course`, the section fields after `section`.
pub proof fn lemma_suggestions_after_other_tokens(ts: Seq<Token>)
    ensures
        ts.len() == 0 ==> context_suggestions(ts) == entities() && entities().contains("professor"@)
            && entities().contains("prerequisites"@),
        ts.len() > 0 ==> ({
            let k = ts.last().kind();
            let s = context_suggestions(ts);
            &&& k == TokenType::Credit ==> s == hours_word() && s.contains("hours"@)
            &&& k == TokenType::Meeting ==> s == type_word() && s.contains("type"@)
            &&& (k == TokenType::Identifier || k == TokenType::Alphanumeric || k == TokenType::String
                || k == TokenType::Integer || k == TokenType::Time) ==> s == logical_ops() && s.contains(
                "and"@,
            ) && s.contains("or"@)
            &&& (k == TokenType::And || k == TokenType::Or) ==> s == entities_next() && s.contains(
                "professor"@,
            ) && s.contains("prereqs"@)
            &&& k == TokenType::Course ==> s == course_context() && s.contains("subject"@) && s.contains(
                "contains"@,
            )
            &&& k == TokenType::Section ==> s == section_context() && s.contains("campus"@) && s.contains(
                "method"@,
            )
        }),
{
    assert(entities()[0] == "professor"@ && entities()[8] == "prerequisites"@);
    assert(hours_word()[0] == "hours"@ && type_word()[0] == "type"@);
    assert(logical_ops()[0] == "and"@ && logical_ops()[1] == "or"@);
    assert(entities_next()[0] == "professor"@ && entities_next()[8] == "prereqs"@);
    assert(course_context()[0] == "subject"@ && course_context()[11] == "contains"@);
    assert(section_context()[5] == "campus"@ && section_context()[4] == "method"@);
}

} // verus!
