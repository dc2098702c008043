//! The parser of the keyword front end: builds the syntax tree of a token
//! stream by recursive descent, or reports the first syntax error it meets.
//!
//! As in the parser of `dsl`, every parsing routine is stated as a spec
//! function of the input text, the token values and the position it starts
//! at (`*_parse`), returning a `Parsed`: the node built and the position
//! after it, the syntax error, or `Stuck` where the routine could not go on
//! at all (a token whose text must be sliced out of the input but whose
//! offsets do not lie on character boundaries of it). The executable parser
//! is proved to compute exactly these functions.
use vstd::prelude::*;
use crate::compiler::token::{Token, TokenType, TokenV, debug_name, display_name, tokens_view};
use crate::tui::errors::{SyntaxError, SyntaxErrorV, friendly_for_completion, make_user_friendly_for_completion};
use crate::text::{span_fits, span_ok, span_text, span_string, seq_contains, str_contains, str_eq};
use crate::dsl::words::{
    binop_words, binop_words_vec, condition_phrases, condition_phrases_vec, condition_words,
    condition_words6, condition_words6_vec, condition_words_vec, course_fields,
    course_fields_vec, course_next, course_next_vec, day_names, day_names_vec, entities,
    entities_short, entities_short_vec, entities_vec, first_keywords, first_keywords_vec,
    first_words, first_words_vec, hours_word, hours_word_vec, logical_ops, logical_ops_vec,
    prof_next, prof_next_vec, query_end, query_end_vec, section_next, section_next_vec,
    simple_compare, simple_compare_vec, start_end, start_end_vec, to_word, to_word_vec,
    type_word, type_word_vec, value_fixes, value_fixes_vec, value_kinds, value_kinds_vec,
    value_placeholder, value_placeholder_vec,
};

verus! {

// ---------------------------------------------------------------------------
// Syntax trees
// ---------------------------------------------------------------------------

/// Node types of the syntax tree.
#[derive(Clone, Copy, PartialEq, Eq, Structural, Debug)]
pub enum NodeType {
    T(TokenType),
    Query,
    LogicalTerm,
    LogicalFactor,
    EntityQuery,
    ProfessorQuery,
    CourseQuery,
    SubjectQuery,
    SectionQuery,
    NumberQuery,
    TitleQuery,
    DescriptionQuery,
    CreditHoursQuery,
    PrereqsQuery,
    CoreqsQuery,
    EnrollmentCapQuery,
    InstructionMethodQuery,
    CampusQuery,
    EnrollmentQuery,
    FullQuery,
    MeetingTypeQuery,
    TimeQuery,
    TimeRange,
    DayQuery,
    Time,
    Condition,
    Binop,
    StringList,
    String,
    Integer,
    Identifier,
    EmailIdentifier,
}

/// The printed name of a node type: the token kind's debug name for a token
/// node, the variant's name otherwise.
pub open spec fn node_type_name(n: NodeType) -> Seq<char> {
    match n {
        NodeType::T(t) => debug_name(t),
        NodeType::Query => "Query"@,
        NodeType::LogicalTerm => "LogicalTerm"@,
        NodeType::LogicalFactor => "LogicalFactor"@,
        NodeType::EntityQuery => "EntityQuery"@,
        NodeType::ProfessorQuery => "ProfessorQuery"@,
        NodeType::CourseQuery => "CourseQuery"@,
        NodeType::SubjectQuery => "SubjectQuery"@,
        NodeType::SectionQuery => "SectionQuery"@,
        NodeType::NumberQuery => "NumberQuery"@,
        NodeType::TitleQuery => "TitleQuery"@,
        NodeType::DescriptionQuery => "DescriptionQuery"@,
        NodeType::CreditHoursQuery => "CreditHoursQuery"@,
        NodeType::PrereqsQuery => "PrereqsQuery"@,
        NodeType::CoreqsQuery => "CoreqsQuery"@,
        NodeType::EnrollmentCapQuery => "EnrollmentCapQuery"@,
        NodeType::InstructionMethodQuery => "InstructionMethodQuery"@,
        NodeType::CampusQuery => "CampusQuery"@,
        NodeType::EnrollmentQuery => "EnrollmentQuery"@,
        NodeType::FullQuery => "FullQuery"@,
        NodeType::MeetingTypeQuery => "MeetingTypeQuery"@,
        NodeType::TimeQuery => "TimeQuery"@,
        NodeType::TimeRange => "TimeRange"@,
        NodeType::DayQuery => "DayQuery"@,
        NodeType::Time => "Time"@,
        NodeType::Condition => "Condition"@,
        NodeType::Binop => "Binop"@,
        NodeType::StringList => "StringList"@,
        NodeType::String => "String"@,
        NodeType::Integer => "Integer"@,
        NodeType::Identifier => "Identifier"@,
        NodeType::EmailIdentifier => "EmailIdentifier"@,
    }
}

impl NodeType {
    /// The printed name of the node type.
    pub fn to_string(&self) -> (r: String)
        ensures
            r@ == node_type_name(*self),
    {
        match self {
            NodeType::T(t) => t.debug_string(),
            NodeType::Query => "Query".to_string(),
            NodeType::LogicalTerm => "LogicalTerm".to_string(),
            NodeType::LogicalFactor => "LogicalFactor".to_string(),
            NodeType::EntityQuery => "EntityQuery".to_string(),
            NodeType::ProfessorQuery => "ProfessorQuery".to_string(),
            NodeType::CourseQuery => "CourseQuery".to_string(),
            NodeType::SubjectQuery => "SubjectQuery".to_string(),
            NodeType::SectionQuery => "SectionQuery".to_string(),
            NodeType::NumberQuery => "NumberQuery".to_string(),
            NodeType::TitleQuery => "TitleQuery".to_string(),
            NodeType::DescriptionQuery => "DescriptionQuery".to_string(),
            NodeType::CreditHoursQuery => "CreditHoursQuery".to_string(),
            NodeType::PrereqsQuery => "PrereqsQuery".to_string(),
            NodeType::CoreqsQuery => "CoreqsQuery".to_string(),
            NodeType::EnrollmentCapQuery => "EnrollmentCapQuery".to_string(),
            NodeType::InstructionMethodQuery => "InstructionMethodQuery".to_string(),
            NodeType::CampusQuery => "CampusQuery".to_string(),
            NodeType::EnrollmentQuery => "EnrollmentQuery".to_string(),
            NodeType::FullQuery => "FullQuery".to_string(),
            NodeType::MeetingTypeQuery => "MeetingTypeQuery".to_string(),
            NodeType::TimeQuery => "TimeQuery".to_string(),
            NodeType::TimeRange => "TimeRange".to_string(),
            NodeType::DayQuery => "DayQuery".to_string(),
            NodeType::Time => "Time".to_string(),
            NodeType::Condition => "Condition".to_string(),
            NodeType::Binop => "Binop".to_string(),
            NodeType::StringList => "StringList".to_string(),
            NodeType::String => "String".to_string(),
            NodeType::Integer => "Integer".to_string(),
            NodeType::Identifier => "Identifier".to_string(),
            NodeType::EmailIdentifier => "EmailIdentifier".to_string(),
        }
    }
}


/// A node of the syntax tree.
#[derive(Debug)]
pub struct TreeNode {
    pub children: Vec<TreeNode>,
    pub node_type: NodeType,
    pub lexical_token: Option<Token>,
    pub node_content: String,
}

/// The mathematical value of a syntax-tree node.
pub ghost struct SNode {
    pub node_type: NodeType,
    pub content: Seq<char>,
    pub token: Option<TokenV>,
    pub children: Seq<SNode>,
}

/// The value of an optional token.
pub open spec fn opt_token(t: Option<Token>) -> Option<TokenV> {
    match t {
        Some(x) => Some(x@),
        None => None,
    }
}

/// The value of a node, its children taken recursively.
pub open spec fn node_view(n: TreeNode) -> SNode
    decreases n,
{
    SNode {
        node_type: n.node_type,
        content: n.node_content@,
        token: opt_token(n.lexical_token),
        children: Seq::new(
            n.children@.len(),
            |i: int|
                if 0 <= i < n.children@.len() {
                    node_view(n.children@[i])
                } else {
                    arbitrary()
                },
        ),
    }
}

impl View for TreeNode {
    type V = SNode;

    open spec fn view(&self) -> SNode {
        node_view(*self)
    }
}

/// The parts of a node's value are those of the node, its children taken by
/// their values.
pub proof fn lemma_node_parts(n: TreeNode)
    ensures
        n@.node_type == n.node_type,
        n@.content == n.node_content@,
        n@.token == opt_token(n.lexical_token),
        n@.children.len() == n.children@.len(),
        forall|i: int| 0 <= i < n.children@.len() ==> #[trigger] n@.children[i] == n.children@[i]@,
{
}

/// The node with the given parts.
pub open spec fn mk_node(nt: NodeType, content: Seq<char>, tok: Option<TokenV>, kids: Seq<SNode>) -> SNode {
    SNode { node_type: nt, content, token: tok, children: kids }
}

/// A node without children.
pub open spec fn leaf(nt: NodeType, content: Seq<char>, tok: Option<TokenV>) -> SNode {
    mk_node(nt, content, tok, Seq::empty())
}

/// A node with one child.
pub open spec fn node1(nt: NodeType, content: Seq<char>, tok: Option<TokenV>, a: SNode) -> SNode {
    mk_node(nt, content, tok, Seq::empty().push(a))
}

/// A node with two children.
pub open spec fn node2(nt: NodeType, content: Seq<char>, tok: Option<TokenV>, a: SNode, b: SNode) -> SNode {
    mk_node(nt, content, tok, Seq::empty().push(a).push(b))
}

/// A node with three children.
pub open spec fn node3(
    nt: NodeType,
    content: Seq<char>,
    tok: Option<TokenV>,
    a: SNode,
    b: SNode,
    c: SNode,
) -> SNode {
    mk_node(nt, content, tok, Seq::empty().push(a).push(b).push(c))
}

impl TreeNode {
    /// A node without children.
    fn new(node_type: NodeType, node_content: String, lexical_token: Option<Token>) -> (r: TreeNode)
        ensures
            r@ == leaf(node_type, node_content@, opt_token(lexical_token)),
    {
        let r = TreeNode { children: Vec::new(), node_type, lexical_token, node_content };
        assert(r@.children =~= Seq::<SNode>::empty());
        r
    }

    /// A node with one child.
    fn with1(node_type: NodeType, node_content: String, lexical_token: Option<Token>, a: TreeNode) -> (r: TreeNode)
        ensures
            r@ == node1(node_type, node_content@, opt_token(lexical_token), a@),
    {
        let mut kids: Vec<TreeNode> = Vec::new();
        kids.push(a);
        let r = TreeNode { children: kids, node_type, lexical_token, node_content };
        assert(r@.children =~= Seq::<SNode>::empty().push(a@));
        r
    }

    /// A node with two children.
    fn with2(
        node_type: NodeType,
        node_content: String,
        lexical_token: Option<Token>,
        a: TreeNode,
        b: TreeNode,
    ) -> (r: TreeNode)
        ensures
            r@ == node2(node_type, node_content@, opt_token(lexical_token), a@, b@),
    {
        let mut kids: Vec<TreeNode> = Vec::new();
        kids.push(a);
        kids.push(b);
        let r = TreeNode { children: kids, node_type, lexical_token, node_content };
        assert(r@.children =~= Seq::<SNode>::empty().push(a@).push(b@));
        r
    }

    /// A node with three children.
    fn with3(
        node_type: NodeType,
        node_content: String,
        lexical_token: Option<Token>,
        a: TreeNode,
        b: TreeNode,
        c: TreeNode,
    ) -> (r: TreeNode)
        ensures
            r@ == node3(node_type, node_content@, opt_token(lexical_token), a@, b@, c@),
    {
        let mut kids: Vec<TreeNode> = Vec::new();
        kids.push(a);
        kids.push(b);
        kids.push(c);
        let r = TreeNode { children: kids, node_type, lexical_token, node_content };
        assert(r@.children =~= Seq::<SNode>::empty().push(a@).push(b@).push(c@));
        r
    }

    /// A node with the given children, in order.
    fn with_all(node_type: NodeType, node_content: String, lexical_token: Option<Token>, kids: Vec<TreeNode>) -> (r: TreeNode)
        ensures
            r@ == mk_node(node_type, node_content@, opt_token(lexical_token), Seq::new(kids@.len(), |i: int| kids@[i]@)),
    {
        let r = TreeNode { children: kids, node_type, lexical_token, node_content };
        assert(r@.children =~= Seq::new(kids@.len(), |i: int| kids@[i]@));
        r
    }
}

/// The syntax tree of a query.
#[derive(Debug)]
pub struct Ast {
    pub head: Option<TreeNode>,
}

impl View for Ast {
    type V = Option<SNode>;

    /// The value of the root node, if there is one.
    open spec fn view(&self) -> Option<SNode> {
        match self.head {
            Some(h) => Some(h@),
            None => None,
        }
    }
}

impl Ast {
    /// The empty tree.
    fn new() -> (r: Ast)
        ensures
            r.head is None,
    {
        Ast { head: None }
    }
}

// ---------------------------------------------------------------------------
// Results of the parsing routines
// ---------------------------------------------------------------------------

/// What a parsing routine yields: the node and the position after it, the
/// syntax error with the tokens it concerns, or `Stuck`.
pub ghost enum Parsed {
    Node(SNode, int),
    Error(SyntaxErrorV, Seq<TokenV>),
    Stuck,
}

/// The text of a token in the input, when its offsets are not negative and
/// its span can be sliced out.
pub open spec fn lexeme(inp: Seq<char>, t: TokenV) -> Option<Seq<char>> {
    if 0 <= t.start && 0 <= t.end && span_ok(inp, t.start as int, t.end as int) {
        Some(span_text(inp, t.start as int, t.end as int))
    } else {
        None
    }
}

/// A token described by its kind and its text: `KIND ('text')`.
pub open spec fn tok_desc(inp: Seq<char>, t: TokenV) -> Option<Seq<char>> {
    match lexeme(inp, t) {
        Some(l) => Some(display_name(t.kind) + " ('"@ + l + "')"@),
        None => None,
    }
}

/// The one-token sequence.
pub open spec fn one(t: TokenV) -> Seq<TokenV> {
    Seq::empty().push(t)
}

/// A `MissingToken` error.
pub open spec fn missing(msg: Seq<char>) -> Parsed {
    Parsed::Error(SyntaxErrorV::MissingToken(msg), Seq::empty())
}

/// An `ExpectedAfter` error.
pub open spec fn expected_after(expected: Seq<Seq<char>>, after: Seq<char>, position: int, toks: Seq<TokenV>) -> Parsed {
    Parsed::Error(SyntaxErrorV::ExpectedAfter { expected, after, position: position as usize }, toks)
}

/// An `InvalidContext` error about token `t`, described by `desc` (stuck when
/// the description needs text that cannot be sliced out).
pub open spec fn wrong_here(desc: Option<Seq<char>>, context: Seq<char>, suggestions: Seq<Seq<char>>, t: TokenV) -> Parsed {
    match desc {
        Some(d) => Parsed::Error(
            SyntaxErrorV::InvalidContext { token: d, context, suggestions },
            one(t),
        ),
        None => Parsed::Stuck,
    }
}

/// Token kinds that compare numbers.
pub open spec fn is_binop(k: TokenType) -> bool {
    match k {
        TokenType::Equals | TokenType::NotEquals | TokenType::LessThan | TokenType::GreaterThan
        | TokenType::LessEqual | TokenType::GreaterEqual | TokenType::Equal
        | TokenType::EqualsWord | TokenType::Is | TokenType::Not | TokenType::Does
        | TokenType::Less | TokenType::Than | TokenType::Greater | TokenType::Least
        | TokenType::Most | TokenType::More | TokenType::Fewer => true,
        _ => false,
    }
}

/// Token kinds that are string conditions on their own.
pub open spec fn is_plain_condition(k: TokenType) -> bool {
    match k {
        TokenType::Equals | TokenType::NotEquals | TokenType::Contains | TokenType::Has
        | TokenType::Is | TokenType::Equal | TokenType::EqualsWord | TokenType::Does => true,
        _ => false,
    }
}

/// Failures of the executable parsing routines.
enum Failure {
    Syntax(SyntaxError, Vec<Token>),
    Stuck,
}

/// The value of an executable parsing result, given the position after it.
spec fn result_view(r: Result<TreeNode, Failure>, after: usize) -> Parsed {
    match r {
        Ok(n) => Parsed::Node(n@, after as int),
        Err(Failure::Syntax(e, v)) => Parsed::Error(e@, tokens_view(v@)),
        Err(Failure::Stuck) => Parsed::Stuck,
    }
}

/// A successful routine has consumed at least one token and stays within
/// the tokens.
spec fn advanced(r: Result<TreeNode, Failure>, before: usize, after: usize, n: int) -> bool {
    r is Ok ==> before < after <= n
}

fn fail_missing(msg: &str) -> (r: Failure)
    ensures
        result_view(Err(r), 0) == missing(msg@),
{
    let v: Vec<Token> = Vec::new();
    assert(tokens_view(v@) =~= Seq::<TokenV>::empty());
    Failure::Syntax(SyntaxError::MissingToken(msg.to_string()), v)
}

fn no_tokens() -> (v: Vec<Token>)
    ensures
        tokens_view(v@) == Seq::<TokenV>::empty(),
{
    let v: Vec<Token> = Vec::new();
    assert(tokens_view(v@) =~= Seq::<TokenV>::empty());
    v
}

fn fail_expected(expected: Vec<String>, after: &str, position: usize, toks: Vec<Token>) -> (r: Failure)
    ensures
        result_view(Err(r), 0) == expected_after(expected.deep_view(), after@, position as int, tokens_view(toks@)),
{
    Failure::Syntax(SyntaxError::ExpectedAfter { expected, after: after.to_string(), position }, toks)
}

fn one_token(t: Token) -> (v: Vec<Token>)
    ensures
        tokens_view(v@) == one(t@),
{
    let ghost tv = t@;
    let mut v: Vec<Token> = Vec::new();
    v.push(t);
    assert(tokens_view(v@) =~= one(tv));
    v
}

fn fail_here(desc: Option<String>, context: &str, suggestions: Vec<String>, t: Token) -> (r: Failure)
    ensures
        result_view(Err(r), 0) == wrong_here(
            match desc { Some(d) => Some(d@), None => None },
            context@,
            suggestions.deep_view(),
            t@,
        ),
{
    match desc {
        Some(d) => Failure::Syntax(
            SyntaxError::InvalidContext { token: d, context: context.to_string(), suggestions },
            one_token(t),
        ),
        None => Failure::Stuck,
    }
}

/// A copy of the token at position `i`.
fn token_at(tokens: &Vec<Token>, i: usize) -> (r: Token)
    requires
        i < tokens@.len(),
    ensures
        r@ == tokens_view(tokens@)[i as int],
{
    tokens[i].duplicate()
}

/// The kind of the token at position `i`.
fn kind_at(tokens: &Vec<Token>, i: usize) -> (r: TokenType)
    requires
        i < tokens@.len(),
    ensures
        r == tokens_view(tokens@)[i as int].kind,
{
    *tokens[i].get_token_type()
}

/// The parser of the query language.
pub struct Parser {
    input_string: String,
    ast: Ast,
    token_pointer: usize,
}

impl Default for Parser {
    /// A parser for the empty input text.
    fn default() -> (r: Parser)
        ensures
            r.input() == Seq::<char>::empty(),
            r.position() == 0,
            r.tree_is_empty(),
    {
        Parser::new(String::new())
    }
}

impl Parser {
    /// The input text the token offsets refer to.
    pub closed spec fn input(self) -> Seq<char> {
        self.input_string@
    }

    /// The token position reached.
    pub closed spec fn position(self) -> usize {
        self.token_pointer
    }

    /// Whether no syntax tree has been built yet.
    pub closed spec fn tree_is_empty(self) -> bool {
        self.ast.head is None
    }

    /// A parser for tokens of the given input text, with no tree built and
    /// no token read yet.
    pub fn new(input_string: String) -> (r: Parser)
        ensures
            r.input() == input_string@,
            r.position() == 0,
            r.tree_is_empty(),
    {
        Parser { input_string, ast: Ast::new(), token_pointer: 0 }
    }

    /// The text of a token (`None` where its span cannot be sliced out).
    fn get_lexeme(&self, token: &Token) -> (r: Option<String>)
        ensures
            r is None <==> lexeme(self.input_string@, token@) is None,
            r is Some ==> lexeme(self.input_string@, token@) == Some(r.unwrap()@),
    {
        let st = token.get_start();
        let en = token.get_end();
        if st < 0 || en < 0 {
            return None;
        }
        let a = st as usize;
        let b = en as usize;
        let s = self.input_string.as_str();
        if span_fits(s, a, b) {
            Some(span_string(s, a, b))
        } else {
            None
        }
    }

    /// `KIND ('text')` for a token.
    fn describe(&self, token: &Token) -> (r: Option<String>)
        ensures
            r is None <==> tok_desc(self.input_string@, token@) is None,
            r is Some ==> tok_desc(self.input_string@, token@) == Some(r.unwrap()@),
    {
        match self.get_lexeme(token) {
            Some(l) => {
                let mut d = token.get_token_type().to_string();
                d.append(" ('");
                d.append(l.as_str());
                d.append("')");
                Some(d)
            },
            None => None,
        }
    }

    /// Whether a token kind compares numbers.
    fn is_valid_binop_token(token_type: &TokenType) -> (r: bool)
        ensures
            r == is_binop(*token_type),
    {
        match token_type {
            TokenType::Equals | TokenType::NotEquals | TokenType::LessThan
            | TokenType::GreaterThan | TokenType::LessEqual | TokenType::GreaterEqual
            | TokenType::Equal | TokenType::EqualsWord | TokenType::Is | TokenType::Not
            | TokenType::Does | TokenType::Less | TokenType::Than | TokenType::Greater
            | TokenType::Least | TokenType::Most | TokenType::More | TokenType::Fewer => true,
            _ => false,
        }
    }
}

// ---------------------------------------------------------------------------
// Conditions, operators and values
// ---------------------------------------------------------------------------

/// `<condition> ::= "=" | "!=" | "contains" | "has" | "starts with" |
/// "ends with" | "is" | "equals" | "not equals" | "does not equal"`, read at
/// position `p`; `not equals` and `does not equal` both mean `!=`.
pub open spec fn condition_parse(inp: Seq<char>, ts: Seq<TokenV>, p: int) -> Parsed {
    if p >= ts.len() {
        expected_after(condition_words(), "entity keyword"@, p, Seq::empty())
    } else {
        let t = ts[p];
        let k = t.kind;
        let node = node1(NodeType::Condition, "Condition"@, Some(t), leaf(NodeType::String, display_name(k), Some(t)));
        let not_equal = node1(
            NodeType::Condition,
            "Condition"@,
            Some(t),
            leaf(NodeType::String, display_name(TokenType::NotEquals), Some(t)),
        );
        if k == TokenType::Not && is_equal_word(kind_of_at(ts, p + 1)) {
            Parsed::Node(not_equal, p + 2)
        } else if k == TokenType::Does && kind_of_at(ts, p + 1) == Some(TokenType::Not) && is_equal_word(
            kind_of_at(ts, p + 2),
        ) {
            Parsed::Node(not_equal, p + 3)
        } else if is_plain_condition(k) {
            Parsed::Node(node, p + 1)
        } else if k == TokenType::Starts {
            if p + 1 >= ts.len() || ts[p + 1].kind != TokenType::With {
                missing("Expected 'with' after 'starts'"@)
            } else {
                Parsed::Node(node, p + 2)
            }
        } else if k == TokenType::Ends {
            if p + 1 >= ts.len() || ts[p + 1].kind != TokenType::With {
                missing("Expected 'with' after 'ends'"@)
            } else {
                Parsed::Node(node, p + 2)
            }
        } else if k == TokenType::With {
            wrong_here(lexeme(inp, t), "string condition"@, condition_phrases(), t)
        } else if is_binop(k) {
            wrong_here(lexeme(inp, t), "string condition"@, condition_words6(), t)
        } else {
            wrong_here(tok_desc(inp, t), "string condition"@, condition_words6(), t)
        }
    }
}

/// The kind of the token at `i`, when there is one.
pub open spec fn kind_of_at(ts: Seq<TokenV>, i: int) -> Option<TokenType> {
    if 0 <= i < ts.len() {
        Some(ts[i].kind)
    } else {
        None
    }
}

/// `=`, `equals` or `equal`.
pub open spec fn is_equal_word(k: Option<TokenType>) -> bool {
    k == Some(TokenType::Equals) || k == Some(TokenType::EqualsWord) || k == Some(TokenType::Equal)
}

/// The comparison that starts at `p` (with `p` a position of `ts`): the
/// token kind it means and the number of tokens it takes. The phrases
/// `at least`, `at most`, `less than`, `greater than`, `more than`,
/// `fewer than`, `less than or equal to`, `greater than or equal to`,
/// `not equals` and `does not equal` are read whole; any other comparison
/// token stands alone.
pub open spec fn comparison_at(ts: Seq<TokenV>, p: int) -> Option<(TokenType, int)> {
    let k = ts[p].kind;
    if k == TokenType::At {
        if kind_of_at(ts, p + 1) == Some(TokenType::Least) {
            Some((TokenType::Least, 2))
        } else if kind_of_at(ts, p + 1) == Some(TokenType::Most) {
            Some((TokenType::Most, 2))
        } else {
            None
        }
    } else if !is_binop(k) {
        None
    } else if (k == TokenType::Less || k == TokenType::Greater) && kind_of_at(ts, p + 1) == Some(TokenType::Than) {
        if kind_of_at(ts, p + 2) == Some(TokenType::Or) && kind_of_at(ts, p + 3) == Some(TokenType::Equal)
            && kind_of_at(ts, p + 4) == Some(TokenType::To) {
            Some((if k == TokenType::Less { TokenType::LessEqual } else { TokenType::GreaterEqual }, 5))
        } else {
            Some((k, 2))
        }
    } else if (k == TokenType::More || k == TokenType::Fewer) && kind_of_at(ts, p + 1) == Some(TokenType::Than) {
        Some((k, 2))
    } else if k == TokenType::Not && is_equal_word(kind_of_at(ts, p + 1)) {
        Some((TokenType::NotEquals, 2))
    } else if k == TokenType::Does && kind_of_at(ts, p + 1) == Some(TokenType::Not) && is_equal_word(kind_of_at(ts, p + 2)) {
        Some((TokenType::NotEquals, 3))
    } else {
        Some((k, 1))
    }
}

/// Whether a comparison starts at `p`.
pub open spec fn comparison_starts(ts: Seq<TokenV>, p: int) -> bool {
    0 <= p < ts.len() && comparison_at(ts, p) is Some
}

/// `<binop>`: a numeric comparison, read at position `p`; its node holds
/// the kind the comparison means.
pub open spec fn binop_parse(ts: Seq<TokenV>, p: int) -> Parsed {
    if p >= ts.len() {
        expected_after(binop_words(), "numeric field"@, p, Seq::empty())
    } else {
        let t = ts[p];
        match comparison_at(ts, p) {
            Some((m, n)) => Parsed::Node(
                node1(NodeType::Binop, "Binop"@, Some(t), leaf(NodeType::String, display_name(m), Some(t))),
                p + n,
            ),
            None => Parsed::Error(
                SyntaxErrorV::InvalidContext {
                    token: display_name(t.kind),
                    context: "numeric comparison"@,
                    suggestions: binop_words(),
                },
                one(t),
            ),
        }
    }
}

/// A value node of type `nt` (named after its type) for the token at `p`,
/// with the token's kind as its child; `msg` when there is no token.
pub open spec fn value_parse(ts: Seq<TokenV>, p: int, nt: NodeType, msg: Seq<char>) -> Parsed {
    if p >= ts.len() {
        missing(msg)
    } else {
        let t = ts[p];
        Parsed::Node(
            node1(nt, node_type_name(nt), Some(t), leaf(NodeType::String, display_name(t.kind), Some(t))),
            p + 1,
        )
    }
}

/// Token kinds that compare and may not stand where a value is expected.
pub open spec fn is_comparison_symbol(k: TokenType) -> bool {
    match k {
        TokenType::Equals | TokenType::NotEquals | TokenType::LessThan | TokenType::GreaterThan
        | TokenType::LessEqual | TokenType::GreaterEqual => true,
        _ => false,
    }
}

/// Token kinds that are string conditions and may not stand where a value is
/// expected.
pub open spec fn is_condition_word(k: TokenType) -> bool {
    match k {
        TokenType::Contains | TokenType::Has | TokenType::Starts | TokenType::Ends
        | TokenType::Is | TokenType::Equal | TokenType::EqualsWord | TokenType::Does => true,
        _ => false,
    }
}

/// `<identifier>`: any token but an operator, read at position `p`.
pub open spec fn identifier_parse(inp: Seq<char>, ts: Seq<TokenV>, p: int) -> Parsed {
    if p >= ts.len() {
        missing("Expected identifier"@)
    } else {
        let t = ts[p];
        if is_comparison_symbol(t.kind) {
            wrong_here(lexeme(inp, t), "after string condition"@, value_kinds(), t)
        } else if is_condition_word(t.kind) {
            wrong_here(lexeme(inp, t), "after string condition"@, value_fixes(), t)
        } else {
            value_parse(ts, p, NodeType::Identifier, "Expected identifier"@)
        }
    }
}

/// `<string>`: an e-mail identifier when the next token's kind name holds
/// an `@`, an identifier otherwise.
pub open spec fn string_parse(inp: Seq<char>, ts: Seq<TokenV>, p: int) -> Parsed {
    if p < ts.len() && seq_contains(display_name(ts[p].kind), "@"@) {
        value_parse(ts, p, NodeType::EmailIdentifier, "Expected email identifier"@)
    } else {
        identifier_parse(inp, ts, p)
    }
}

/// `<integer>`: any token, kept by its kind.
pub open spec fn integer_parse(ts: Seq<TokenV>, p: int) -> Parsed {
    value_parse(ts, p, NodeType::Integer, "Expected number"@)
}

/// `<time>`: any token, kept by its kind.
pub open spec fn time_parse(ts: Seq<TokenV>, p: int) -> Parsed {
    value_parse(ts, p, NodeType::Time, "Expected time"@)
}

/// A token kind that separates the strings of a list: one whose name is
/// `comma` or holds a comma.
pub open spec fn is_separator(k: TokenType) -> bool {
    display_name(k) == "comma"@ || seq_contains(display_name(k), ","@)
}

/// `("," <string>)*` after the strings read so far (`acc`).
pub open spec fn list_tail_parse(inp: Seq<char>, ts: Seq<TokenV>, p: int, acc: Seq<SNode>) -> Parsed
    decreases ts.len() - p,
{
    if p < ts.len() && is_separator(ts[p].kind) {
        match string_parse(inp, ts, p + 1) {
            Parsed::Node(s, p2) => if p + 1 < p2 <= ts.len() {
                list_tail_parse(inp, ts, p2, acc.push(s))
            } else {
                Parsed::Stuck
            },
            other => other,
        }
    } else {
        Parsed::Node(mk_node(NodeType::StringList, "StringList"@, None, acc), p)
    }
}

/// `<string_list> ::= <string> | <string_list> "," <string>`.
pub open spec fn string_list_parse(inp: Seq<char>, ts: Seq<TokenV>, p: int) -> Parsed {
    match string_parse(inp, ts, p) {
        Parsed::Node(s, p1) => list_tail_parse(inp, ts, p1, Seq::empty().push(s)),
        other => other,
    }
}

impl Parser {
    /// Parses a string condition.
    fn parse_condition(&mut self, tokens: &Vec<Token>) -> (r: Result<TreeNode, Failure>)
        requires
            old(self).token_pointer <= tokens.len(),
        ensures
            final(self).input_string == old(self).input_string,
            advanced(r, old(self).token_pointer, final(self).token_pointer, tokens.len() as int),
            result_view(r, final(self).token_pointer) == condition_parse(
                old(self).input_string@,
                tokens_view(tokens@),
                old(self).token_pointer as int,
            ),
    {
        let p = self.token_pointer;
        if p >= tokens.len() {
            return Err(fail_expected(condition_words_vec(), "entity keyword", p, no_tokens()));
        }
        let t = token_at(tokens, p);
        self.token_pointer = p + 1;
        let kind = *t.get_token_type();
        let n = tokens.len();
        let k1 = if p + 1 < n { Some(kind_at(tokens, p + 1)) } else { None };
        let k2 = if p + 1 < n && p + 2 < n { Some(kind_at(tokens, p + 2)) } else { None };
        let equal_word = |o: Option<TokenType>| -> (b: bool)
            ensures
                b == is_equal_word(o),
            { o == Some(TokenType::Equals) || o == Some(TokenType::EqualsWord) || o == Some(TokenType::Equal) };
        let negated = if kind == TokenType::Not && equal_word(k1) {
            Some(p + 2)
        } else if kind == TokenType::Does && k1 == Some(TokenType::Not) && equal_word(k2) {
            Some(p + 3)
        } else {
            None
        };
        if let Some(q) = negated {
            self.token_pointer = q;
            let child = TreeNode::new(NodeType::String, TokenType::NotEquals.to_string(), Some(t.duplicate()));
            return Ok(TreeNode::with1(NodeType::Condition, NodeType::Condition.to_string(), Some(t), child));
        }
        match kind {
            TokenType::Equals | TokenType::NotEquals | TokenType::Contains | TokenType::Has
            | TokenType::Is | TokenType::Equal | TokenType::EqualsWord | TokenType::Does => {},
            TokenType::Starts => {
                if p + 1 >= tokens.len() || kind_at(tokens, p + 1) != TokenType::With {
                    return Err(fail_missing("Expected 'with' after 'starts'"));
                }
                self.token_pointer = p + 2;
            },
            TokenType::Ends => {
                if p + 1 >= tokens.len() || kind_at(tokens, p + 1) != TokenType::With {
                    return Err(fail_missing("Expected 'with' after 'ends'"));
                }
                self.token_pointer = p + 2;
            },
            TokenType::With => {
                return Err(fail_here(self.get_lexeme(&t), "string condition", condition_phrases_vec(), t));
            },
            _ => {
                if Self::is_valid_binop_token(&kind) {
                    return Err(fail_here(self.get_lexeme(&t), "string condition", condition_words6_vec(), t));
                } else {
                    return Err(fail_here(self.describe(&t), "string condition", condition_words6_vec(), t));
                }
            },
        }
        let child = TreeNode::new(NodeType::String, kind.to_string(), Some(t.duplicate()));
        Ok(TreeNode::with1(NodeType::Condition, NodeType::Condition.to_string(), Some(t), child))
    }

    /// Parses a numeric comparison operator.
    fn parse_binop(&mut self, tokens: &Vec<Token>) -> (r: Result<TreeNode, Failure>)
        requires
            old(self).token_pointer <= tokens.len(),
        ensures
            final(self).input_string == old(self).input_string,
            advanced(r, old(self).token_pointer, final(self).token_pointer, tokens.len() as int),
            result_view(r, final(self).token_pointer) == binop_parse(tokens_view(tokens@), old(self).token_pointer as int),
    {
        let p = self.token_pointer;
        if p >= tokens.len() {
            return Err(fail_expected(binop_words_vec(), "numeric field", p, no_tokens()));
        }
        let t = token_at(tokens, p);
        let kind = *t.get_token_type();
        match Self::comparison(tokens, p) {
            Some((m, n)) => {
                self.token_pointer = p + n;
                let child = TreeNode::new(NodeType::String, m.to_string(), Some(t.duplicate()));
                Ok(TreeNode::with1(NodeType::Binop, NodeType::Binop.to_string(), Some(t), child))
            },
            None => {
                self.token_pointer = p + 1;
                Err(Failure::Syntax(
                    SyntaxError::InvalidContext {
                        token: kind.to_string(),
                        context: "numeric comparison".to_string(),
                        suggestions: binop_words_vec(),
                    },
                    one_token(t),
                ))
            },
        }
    }

    /// The comparison that starts at `p`.
    fn comparison(tokens: &Vec<Token>, p: usize) -> (r: Option<(TokenType, usize)>)
        requires
            p < tokens.len(),
        ensures
            match r {
                Some((m, n)) => comparison_at(tokens_view(tokens@), p as int) == Some((m, n as int)),
                None => comparison_at(tokens_view(tokens@), p as int) is None,
            },
    {
        let n = tokens.len();
        let k = kind_at(tokens, p);
        let next = |d: usize| -> (o: Option<TokenType>)
            requires
                p < n,
                n == tokens.len(),
            ensures
                o == kind_of_at(tokens_view(tokens@), p + d),
            { if d < n - p { Some(kind_at(tokens, p + d)) } else { None } };
        if k == TokenType::At {
            let k1 = next(1);
            if k1 == Some(TokenType::Least) {
                return Some((TokenType::Least, 2));
            } else if k1 == Some(TokenType::Most) {
                return Some((TokenType::Most, 2));
            } else {
                return None;
            }
        }
        if !Self::is_valid_binop_token(&k) {
            return None;
        }
        let k1 = next(1);
        if (k == TokenType::Less || k == TokenType::Greater) && k1 == Some(TokenType::Than) {
            let k2 = next(2);
            let k3 = next(3);
            let k4 = next(4);
            if k2 == Some(TokenType::Or) && k3 == Some(TokenType::Equal) && k4 == Some(TokenType::To) {
                return Some((if k == TokenType::Less { TokenType::LessEqual } else { TokenType::GreaterEqual }, 5));
            }
            return Some((k, 2));
        }
        if (k == TokenType::More || k == TokenType::Fewer) && k1 == Some(TokenType::Than) {
            return Some((k, 2));
        }
        if k == TokenType::Not && (k1 == Some(TokenType::Equals) || k1 == Some(TokenType::EqualsWord)
            || k1 == Some(TokenType::Equal)) {
            return Some((TokenType::NotEquals, 2));
        }
        if k == TokenType::Does && k1 == Some(TokenType::Not) {
            let k2 = next(2);
            if k2 == Some(TokenType::Equals) || k2 == Some(TokenType::EqualsWord) || k2 == Some(TokenType::Equal) {
                return Some((TokenType::NotEquals, 3));
            }
        }
        Some((k, 1))
    }

    /// A value node of type `nt` for the next token.
    fn parse_value(&mut self, tokens: &Vec<Token>, nt: NodeType, msg: &str) -> (r: Result<TreeNode, Failure>)
        requires
            old(self).token_pointer <= tokens.len(),
        ensures
            final(self).input_string == old(self).input_string,
            advanced(r, old(self).token_pointer, final(self).token_pointer, tokens.len() as int),
            result_view(r, final(self).token_pointer) == value_parse(
                tokens_view(tokens@),
                old(self).token_pointer as int,
                nt,
                msg@,
            ),
    {
        let p = self.token_pointer;
        if p >= tokens.len() {
            return Err(fail_missing(msg));
        }
        let t = token_at(tokens, p);
        self.token_pointer = p + 1;
        let child = TreeNode::new(NodeType::String, t.get_token_type().to_string(), Some(t.duplicate()));
        Ok(TreeNode::with1(nt, nt.to_string(), Some(t), child))
    }

    /// Parses an identifier.
    fn parse_identifier(&mut self, tokens: &Vec<Token>) -> (r: Result<TreeNode, Failure>)
        requires
            old(self).token_pointer <= tokens.len(),
        ensures
            final(self).input_string == old(self).input_string,
            advanced(r, old(self).token_pointer, final(self).token_pointer, tokens.len() as int),
            result_view(r, final(self).token_pointer) == identifier_parse(
                old(self).input_string@,
                tokens_view(tokens@),
                old(self).token_pointer as int,
            ),
    {
        let p = self.token_pointer;
        if p >= tokens.len() {
            return Err(fail_missing("Expected identifier"));
        }
        match kind_at(tokens, p) {
            TokenType::Equals | TokenType::NotEquals | TokenType::LessThan
            | TokenType::GreaterThan | TokenType::LessEqual | TokenType::GreaterEqual => {
                let t = token_at(tokens, p);
                self.token_pointer = p + 1;
                return Err(fail_here(self.get_lexeme(&t), "after string condition", value_kinds_vec(), t));
            },
            TokenType::Contains | TokenType::Has | TokenType::Starts | TokenType::Ends
            | TokenType::Is | TokenType::Equal | TokenType::EqualsWord | TokenType::Does => {
                let t = token_at(tokens, p);
                self.token_pointer = p + 1;
                return Err(fail_here(self.get_lexeme(&t), "after string condition", value_fixes_vec(), t));
            },
            _ => {},
        }
        self.parse_value(tokens, NodeType::Identifier, "Expected identifier")
    }

    /// Parses an e-mail identifier.
    fn parse_email_identifier(&mut self, tokens: &Vec<Token>) -> (r: Result<TreeNode, Failure>)
        requires
            old(self).token_pointer <= tokens.len(),
        ensures
            final(self).input_string == old(self).input_string,
            advanced(r, old(self).token_pointer, final(self).token_pointer, tokens.len() as int),
            result_view(r, final(self).token_pointer) == value_parse(
                tokens_view(tokens@),
                old(self).token_pointer as int,
                NodeType::EmailIdentifier,
                "Expected email identifier"@,
            ),
    {
        self.parse_value(tokens, NodeType::EmailIdentifier, "Expected email identifier")
    }

    /// Parses a string value.
    fn parse_string(&mut self, tokens: &Vec<Token>) -> (r: Result<TreeNode, Failure>)
        requires
            old(self).token_pointer <= tokens.len(),
        ensures
            final(self).input_string == old(self).input_string,
            advanced(r, old(self).token_pointer, final(self).token_pointer, tokens.len() as int),
            result_view(r, final(self).token_pointer) == string_parse(
                old(self).input_string@,
                tokens_view(tokens@),
                old(self).token_pointer as int,
            ),
    {
        if self.token_pointer < tokens.len() {
            let name = kind_at(tokens, self.token_pointer).to_string();
            if str_contains(name.as_str(), "@") {
                return self.parse_email_identifier(tokens);
            }
        }
        self.parse_identifier(tokens)
    }

    /// Parses an integer value.
    fn parse_integer(&mut self, tokens: &Vec<Token>) -> (r: Result<TreeNode, Failure>)
        requires
            old(self).token_pointer <= tokens.len(),
        ensures
            final(self).input_string == old(self).input_string,
            advanced(r, old(self).token_pointer, final(self).token_pointer, tokens.len() as int),
            result_view(r, final(self).token_pointer) == integer_parse(
                tokens_view(tokens@),
                old(self).token_pointer as int,
            ),
    {
        self.parse_value(tokens, NodeType::Integer, "Expected number")
    }

    /// Parses a time value.
    fn parse_time(&mut self, tokens: &Vec<Token>) -> (r: Result<TreeNode, Failure>)
        requires
            old(self).token_pointer <= tokens.len(),
        ensures
            final(self).input_string == old(self).input_string,
            advanced(r, old(self).token_pointer, final(self).token_pointer, tokens.len() as int),
            result_view(r, final(self).token_pointer) == time_parse(
                tokens_view(tokens@),
                old(self).token_pointer as int,
            ),
    {
        self.parse_value(tokens, NodeType::Time, "Expected time")
    }

    /// Whether a token kind separates the strings of a list.
    fn is_separator_token(kind: TokenType) -> (r: bool)
        ensures
            r == is_separator(kind),
    {
        let name = kind.to_string();
        str_eq(name.as_str(), "comma") || str_contains(name.as_str(), ",")
    }

    /// Parses a comma-separated list of strings.
    fn parse_string_list(&mut self, tokens: &Vec<Token>) -> (r: Result<TreeNode, Failure>)
        requires
            old(self).token_pointer <= tokens.len(),
        ensures
            final(self).input_string == old(self).input_string,
            advanced(r, old(self).token_pointer, final(self).token_pointer, tokens.len() as int),
            result_view(r, final(self).token_pointer) == string_list_parse(
                old(self).input_string@,
                tokens_view(tokens@),
                old(self).token_pointer as int,
            ),
    {
        let ghost inp = self.input_string@;
        let ghost ts = tokens_view(tokens@);
        let ghost s0 = self.input_string;
        let p0 = self.token_pointer;
        let first = match self.parse_string(tokens) {
            Ok(s) => s,
            Err(e) => return Err(e),
        };
        let ghost fv = first@;
        let mut items: Vec<TreeNode> = Vec::new();
        items.push(first);
        assert(Seq::new(items@.len(), |i: int| items@[i]@) =~= Seq::empty().push(fv));
        loop
            invariant
                self.input_string == s0,
                old(self).input_string == s0,
                old(self).token_pointer == p0,
                inp == s0@,
                ts == tokens_view(tokens@),
                p0 < self.token_pointer <= tokens.len(),
                string_list_parse(inp, ts, p0 as int) == list_tail_parse(
                    inp,
                    ts,
                    self.token_pointer as int,
                    Seq::new(items@.len(), |i: int| items@[i]@),
                ),
            decreases tokens.len() - self.token_pointer,
        {
            let p = self.token_pointer;
            if p >= tokens.len() || !Self::is_separator_token(kind_at(tokens, p)) {
                return Ok(TreeNode::with_all(NodeType::StringList, NodeType::StringList.to_string(), None, items));
            }
            self.token_pointer = p + 1;
            let s = match self.parse_string(tokens) {
                Ok(s) => s,
                Err(e) => return Err(e),
            };
            let ghost before = Seq::new(items@.len(), |i: int| items@[i]@);
            let ghost sv = s@;
            items.push(s);
            assert(Seq::new(items@.len(), |i: int| items@[i]@) =~= before.push(sv));
        }
    }
}

// ---------------------------------------------------------------------------
// Field queries
// ---------------------------------------------------------------------------

/// `<condition> <string>` at `p`, made a node of type `nt` with text
/// `content` and token `tok`.
pub open spec fn cond_string_parse(
    inp: Seq<char>,
    ts: Seq<TokenV>,
    p: int,
    nt: NodeType,
    content: Seq<char>,
    tok: Option<TokenV>,
) -> Parsed {
    match condition_parse(inp, ts, p) {
        Parsed::Node(c, p1) => match string_parse(inp, ts, p1) {
            Parsed::Node(s, p2) => Parsed::Node(node2(nt, content, tok, c, s), p2),
            other => other,
        },
        other => other,
    }
}

/// `<binop> <integer>` at `p`, made a node of type `nt` for keyword token
/// `main`.
pub open spec fn binop_int_parse(ts: Seq<TokenV>, p: int, nt: NodeType, main: TokenV) -> Parsed {
    match binop_parse(ts, p) {
        Parsed::Node(b, p1) => match integer_parse(ts, p1) {
            Parsed::Node(i, p2) => Parsed::Node(node2(nt, node_type_name(nt), Some(main), b, i), p2),
            other => other,
        },
        other => other,
    }
}

/// Wraps the node of a successful routine in a one-child node.
pub open spec fn wrap(r: Parsed, nt: NodeType, tok: Option<TokenV>) -> Parsed {
    match r {
        Parsed::Node(n, q) => Parsed::Node(node1(nt, node_type_name(nt), tok, n), q),
        other => other,
    }
}

/// `<keyword> <condition> <string>` where the keyword is the token just
/// before `p`.
pub open spec fn field_parse(inp: Seq<char>, ts: Seq<TokenV>, p: int, nt: NodeType) -> Parsed {
    cond_string_parse(inp, ts, p, nt, node_type_name(nt), Some(ts[p - 1]))
}

/// `<keyword> <string_list>` where the keyword is the token just before `p`.
pub open spec fn list_field_parse(inp: Seq<char>, ts: Seq<TokenV>, p: int, nt: NodeType) -> Parsed {
    wrap(string_list_parse(inp, ts, p), nt, Some(ts[p - 1]))
}

/// `("meeting type" | "type") <condition> <string>`: the node's token is the
/// `meeting` keyword when it stands two tokens back.
pub open spec fn meeting_type_parse(inp: Seq<char>, ts: Seq<TokenV>, p: int) -> Parsed {
    let main = if p > 1 && ts[p - 2].kind == TokenType::Meeting {
        ts[p - 2]
    } else {
        ts[p - 1]
    };
    cond_string_parse(inp, ts, p, NodeType::MeetingTypeQuery, "MeetingTypeQuery"@, Some(main))
}

/// `"credit" "hours" <binop> <integer>`, after the `credit` keyword.
pub open spec fn credit_parse(ts: Seq<TokenV>, p: int) -> Parsed {
    if p >= ts.len() {
        expected_after(hours_word(), "credit"@, p, Seq::empty())
    } else if ts[p].kind != TokenType::Hours {
        expected_after(hours_word(), "credit"@, p + 1, one(ts[p]))
    } else {
        binop_int_parse(ts, p + 1, NodeType::CreditHoursQuery, ts[p - 1])
    }
}

/// `("cap" | "enrollment cap") <binop> <integer>`, after the first keyword;
/// a `cap` that follows is skipped.
pub open spec fn cap_parse(ts: Seq<TokenV>, p: int) -> Parsed {
    let q = if p < ts.len() && ts[p].kind == TokenType::Cap { p + 1 } else { p };
    binop_int_parse(ts, q, NodeType::EnrollmentCapQuery, ts[p - 1])
}

/// `("size" | "enrollment") <binop> <integer>`, after the keyword.
pub open spec fn enrollment_parse(ts: Seq<TokenV>, p: int) -> Parsed {
    if !comparison_starts(ts, p) {
        missing("Expected comparison operator after size/enrollment"@)
    } else {
        binop_int_parse(ts, p, NodeType::EnrollmentQuery, ts[p - 1])
    }
}

/// The executable form of `wrap`.
fn wrap_result(r: Result<TreeNode, Failure>, nt: NodeType, tok: Option<Token>) -> (w: Result<TreeNode, Failure>)
    ensures
        forall|after: usize| result_view(w, after) == wrap(result_view(r, after), nt, opt_token(tok)),
        w is Ok == r is Ok,
{
    match r {
        Ok(n) => Ok(TreeNode::with1(nt, nt.to_string(), tok, n)),
        Err(e) => Err(e),
    }
}

impl Parser {
    /// `<condition> <string>` made a node of type `nt` with text `content`
    /// and token `tok`.
    fn condition_then_string(
        &mut self,
        tokens: &Vec<Token>,
        nt: NodeType,
        content: String,
        tok: Option<Token>,
    ) -> (r: Result<TreeNode, Failure>)
        requires
            old(self).token_pointer <= tokens.len(),
        ensures
            final(self).input_string == old(self).input_string,
            advanced(r, old(self).token_pointer, final(self).token_pointer, tokens.len() as int),
            result_view(r, final(self).token_pointer) == cond_string_parse(
                old(self).input_string@,
                tokens_view(tokens@),
                old(self).token_pointer as int,
                nt,
                content@,
                opt_token(tok),
            ),
    {
        let c = match self.parse_condition(tokens) {
            Ok(c) => c,
            Err(e) => return Err(e),
        };
        let s = match self.parse_string(tokens) {
            Ok(s) => s,
            Err(e) => return Err(e),
        };
        Ok(TreeNode::with2(nt, content, tok, c, s))
    }

    /// `<binop> <integer>` made a node of type `nt` for keyword `main`.
    fn binop_then_integer(&mut self, tokens: &Vec<Token>, nt: NodeType, main: Token) -> (r: Result<TreeNode, Failure>)
        requires
            old(self).token_pointer <= tokens.len(),
        ensures
            final(self).input_string == old(self).input_string,
            advanced(r, old(self).token_pointer, final(self).token_pointer, tokens.len() as int),
            result_view(r, final(self).token_pointer) == binop_int_parse(
                tokens_view(tokens@),
                old(self).token_pointer as int,
                nt,
                main@,
            ),
    {
        let b = match self.parse_binop(tokens) {
            Ok(b) => b,
            Err(e) => return Err(e),
        };
        let i = match self.parse_integer(tokens) {
            Ok(i) => i,
            Err(e) => return Err(e),
        };
        Ok(TreeNode::with2(nt, nt.to_string(), Some(main), b, i))
    }

    /// A field query whose keyword is the token just consumed.
    fn parse_field(&mut self, tokens: &Vec<Token>, nt: NodeType) -> (r: Result<TreeNode, Failure>)
        requires
            1 <= old(self).token_pointer <= tokens.len(),
        ensures
            final(self).input_string == old(self).input_string,
            advanced(r, old(self).token_pointer, final(self).token_pointer, tokens.len() as int),
            result_view(r, final(self).token_pointer) == field_parse(
                old(self).input_string@,
                tokens_view(tokens@),
                old(self).token_pointer as int,
                nt,
            ),
    {
        let main = token_at(tokens, self.token_pointer - 1);
        self.condition_then_string(tokens, nt, nt.to_string(), Some(main))
    }

    /// A list query whose keyword is the token just consumed.
    fn parse_list_field(&mut self, tokens: &Vec<Token>, nt: NodeType) -> (r: Result<TreeNode, Failure>)
        requires
            1 <= old(self).token_pointer <= tokens.len(),
        ensures
            final(self).input_string == old(self).input_string,
            advanced(r, old(self).token_pointer, final(self).token_pointer, tokens.len() as int),
            result_view(r, final(self).token_pointer) == list_field_parse(
                old(self).input_string@,
                tokens_view(tokens@),
                old(self).token_pointer as int,
                nt,
            ),
    {
        let main = token_at(tokens, self.token_pointer - 1);
        let list = self.parse_string_list(tokens);
        wrap_result(list, nt, Some(main))
    }

    /// Parses the professor query after its keyword.
    fn parse_professor_query(&mut self, tokens: &Vec<Token>) -> (r: Result<TreeNode, Failure>)
        requires
            1 <= old(self).token_pointer <= tokens.len(),
        ensures
            final(self).input_string == old(self).input_string,
            advanced(r, old(self).token_pointer, final(self).token_pointer, tokens.len() as int),
            result_view(r, final(self).token_pointer) == field_parse(
                old(self).input_string@,
                tokens_view(tokens@),
                old(self).token_pointer as int,
                NodeType::ProfessorQuery,
            ),
    {
        self.parse_field(tokens, NodeType::ProfessorQuery)
    }

    /// Parses the subject query after its keyword.
    fn parse_subject_query(&mut self, tokens: &Vec<Token>) -> (r: Result<TreeNode, Failure>)
        requires
            1 <= old(self).token_pointer <= tokens.len(),
        ensures
            final(self).input_string == old(self).input_string,
            advanced(r, old(self).token_pointer, final(self).token_pointer, tokens.len() as int),
            result_view(r, final(self).token_pointer) == field_parse(
                old(self).input_string@,
                tokens_view(tokens@),
                old(self).token_pointer as int,
                NodeType::SubjectQuery,
            ),
    {
        self.parse_field(tokens, NodeType::SubjectQuery)
    }

    /// Parses the number query after its keyword.
    fn parse_number_query(&mut self, tokens: &Vec<Token>) -> (r: Result<TreeNode, Failure>)
        requires
            1 <= old(self).token_pointer <= tokens.len(),
        ensures
            final(self).input_string == old(self).input_string,
            advanced(r, old(self).token_pointer, final(self).token_pointer, tokens.len() as int),
            result_view(r, final(self).token_pointer) == field_parse(
                old(self).input_string@,
                tokens_view(tokens@),
                old(self).token_pointer as int,
                NodeType::NumberQuery,
            ),
    {
        self.parse_field(tokens, NodeType::NumberQuery)
    }

    /// Parses the title query after its keyword.
    fn parse_title_query(&mut self, tokens: &Vec<Token>) -> (r: Result<TreeNode, Failure>)
        requires
            1 <= old(self).token_pointer <= tokens.len(),
        ensures
            final(self).input_string == old(self).input_string,
            advanced(r, old(self).token_pointer, final(self).token_pointer, tokens.len() as int),
            result_view(r, final(self).token_pointer) == field_parse(
                old(self).input_string@,
                tokens_view(tokens@),
                old(self).token_pointer as int,
                NodeType::TitleQuery,
            ),
    {
        self.parse_field(tokens, NodeType::TitleQuery)
    }

    /// Parses the description query after its keyword.
    fn parse_description_query(&mut self, tokens: &Vec<Token>) -> (r: Result<TreeNode, Failure>)
        requires
            1 <= old(self).token_pointer <= tokens.len(),
        ensures
            final(self).input_string == old(self).input_string,
            advanced(r, old(self).token_pointer, final(self).token_pointer, tokens.len() as int),
            result_view(r, final(self).token_pointer) == field_parse(
                old(self).input_string@,
                tokens_view(tokens@),
                old(self).token_pointer as int,
                NodeType::DescriptionQuery,
            ),
    {
        self.parse_field(tokens, NodeType::DescriptionQuery)
    }

    /// Parses the prereqs query after its keyword.
    fn parse_prereqs_query(&mut self, tokens: &Vec<Token>) -> (r: Result<TreeNode, Failure>)
        requires
            1 <= old(self).token_pointer <= tokens.len(),
        ensures
            final(self).input_string == old(self).input_string,
            advanced(r, old(self).token_pointer, final(self).token_pointer, tokens.len() as int),
            result_view(r, final(self).token_pointer) == list_field_parse(
                old(self).input_string@,
                tokens_view(tokens@),
                old(self).token_pointer as int,
                NodeType::PrereqsQuery,
            ),
    {
        self.parse_list_field(tokens, NodeType::PrereqsQuery)
    }

    /// Parses the coreqs query after its keyword.
    fn parse_coreqs_query(&mut self, tokens: &Vec<Token>) -> (r: Result<TreeNode, Failure>)
        requires
            1 <= old(self).token_pointer <= tokens.len(),
        ensures
            final(self).input_string == old(self).input_string,
            advanced(r, old(self).token_pointer, final(self).token_pointer, tokens.len() as int),
            result_view(r, final(self).token_pointer) == list_field_parse(
                old(self).input_string@,
                tokens_view(tokens@),
                old(self).token_pointer as int,
                NodeType::CoreqsQuery,
            ),
    {
        self.parse_list_field(tokens, NodeType::CoreqsQuery)
    }

    /// Parses the instruction method query after its keyword.
    fn parse_instruction_method_query(&mut self, tokens: &Vec<Token>) -> (r: Result<TreeNode, Failure>)
        requires
            1 <= old(self).token_pointer <= tokens.len(),
        ensures
            final(self).input_string == old(self).input_string,
            advanced(r, old(self).token_pointer, final(self).token_pointer, tokens.len() as int),
            result_view(r, final(self).token_pointer) == field_parse(
                old(self).input_string@,
                tokens_view(tokens@),
                old(self).token_pointer as int,
                NodeType::InstructionMethodQuery,
            ),
    {
        self.parse_field(tokens, NodeType::InstructionMethodQuery)
    }

    /// Parses the campus query after its keyword.
    fn parse_campus_query(&mut self, tokens: &Vec<Token>) -> (r: Result<TreeNode, Failure>)
        requires
            1 <= old(self).token_pointer <= tokens.len(),
        ensures
            final(self).input_string == old(self).input_string,
            advanced(r, old(self).token_pointer, final(self).token_pointer, tokens.len() as int),
            result_view(r, final(self).token_pointer) == field_parse(
                old(self).input_string@,
                tokens_view(tokens@),
                old(self).token_pointer as int,
                NodeType::CampusQuery,
            ),
    {
        self.parse_field(tokens, NodeType::CampusQuery)
    }

    /// Parses the full query after its keyword.
    fn parse_full_query(&mut self, tokens: &Vec<Token>) -> (r: Result<TreeNode, Failure>)
        requires
            1 <= old(self).token_pointer <= tokens.len(),
        ensures
            final(self).input_string == old(self).input_string,
            advanced(r, old(self).token_pointer, final(self).token_pointer, tokens.len() as int),
            result_view(r, final(self).token_pointer) == field_parse(
                old(self).input_string@,
                tokens_view(tokens@),
                old(self).token_pointer as int,
                NodeType::FullQuery,
            ),
    {
        self.parse_field(tokens, NodeType::FullQuery)
    }

    /// Parses the meeting type query after `type` (or `meeting type`).
    fn parse_meeting_type_query(&mut self, tokens: &Vec<Token>) -> (r: Result<TreeNode, Failure>)
        requires
            1 <= old(self).token_pointer <= tokens.len(),
        ensures
            final(self).input_string == old(self).input_string,
            advanced(r, old(self).token_pointer, final(self).token_pointer, tokens.len() as int),
            result_view(r, final(self).token_pointer) == meeting_type_parse(
                old(self).input_string@,
                tokens_view(tokens@),
                old(self).token_pointer as int,
            ),
    {
        let p = self.token_pointer;
        let main = if p > 1 && kind_at(tokens, p - 2) == TokenType::Meeting {
            token_at(tokens, p - 2)
        } else {
            token_at(tokens, p - 1)
        };
        self.condition_then_string(tokens, NodeType::MeetingTypeQuery, NodeType::MeetingTypeQuery.to_string(), Some(main))
    }

    /// Parses `credit hours <binop> <integer>` after `credit`.
    fn parse_credit_hours_query(&mut self, tokens: &Vec<Token>) -> (r: Result<TreeNode, Failure>)
        requires
            1 <= old(self).token_pointer <= tokens.len(),
        ensures
            final(self).input_string == old(self).input_string,
            advanced(r, old(self).token_pointer, final(self).token_pointer, tokens.len() as int),
            result_view(r, final(self).token_pointer) == credit_parse(
                tokens_view(tokens@),
                old(self).token_pointer as int,
            ),
    {
        let p = self.token_pointer;
        let credit_token = token_at(tokens, p - 1);
        if p >= tokens.len() {
            return Err(fail_expected(hours_word_vec(), "credit", p, no_tokens()));
        }
        let hours_token = token_at(tokens, p);
        self.token_pointer = p + 1;
        if *hours_token.get_token_type() != TokenType::Hours {
            return Err(fail_expected(hours_word_vec(), "credit", p + 1, one_token(hours_token)));
        }
        self.binop_then_integer(tokens, NodeType::CreditHoursQuery, credit_token)
    }

    /// Parses an enrollment cap query after `cap` or `enrollment`.
    fn parse_enrollment_cap_query(&mut self, tokens: &Vec<Token>) -> (r: Result<TreeNode, Failure>)
        requires
            1 <= old(self).token_pointer <= tokens.len(),
        ensures
            final(self).input_string == old(self).input_string,
            advanced(r, old(self).token_pointer, final(self).token_pointer, tokens.len() as int),
            result_view(r, final(self).token_pointer) == cap_parse(
                tokens_view(tokens@),
                old(self).token_pointer as int,
            ),
    {
        let p = self.token_pointer;
        let cap_token = token_at(tokens, p - 1);
        if p < tokens.len() && kind_at(tokens, p) == TokenType::Cap {
            self.token_pointer = p + 1;
        }
        self.binop_then_integer(tokens, NodeType::EnrollmentCapQuery, cap_token)
    }

    /// Parses an enrollment query after `size` or `enrollment`.
    fn parse_enrollment_query(&mut self, tokens: &Vec<Token>) -> (r: Result<TreeNode, Failure>)
        requires
            1 <= old(self).token_pointer <= tokens.len(),
        ensures
            final(self).input_string == old(self).input_string,
            advanced(r, old(self).token_pointer, final(self).token_pointer, tokens.len() as int),
            result_view(r, final(self).token_pointer) == enrollment_parse(
                tokens_view(tokens@),
                old(self).token_pointer as int,
            ),
    {
        let p = self.token_pointer;
        let enrollment_token = token_at(tokens, p - 1);
        if p >= tokens.len() || Self::comparison(tokens, p).is_none() {
            return Err(fail_missing("Expected comparison operator after size/enrollment"));
        }
        self.binop_then_integer(tokens, NodeType::EnrollmentQuery, enrollment_token)
    }
}

// ---------------------------------------------------------------------------
// Course, section, time and day queries
// ---------------------------------------------------------------------------

/// Token kinds that begin a direct condition after `course`.
pub open spec fn is_course_condition(k: TokenType) -> bool {
    match k {
        TokenType::Equals | TokenType::NotEquals | TokenType::Contains | TokenType::Has
        | TokenType::Starts | TokenType::With | TokenType::Ends | TokenType::Is
        | TokenType::Equal | TokenType::EqualsWord | TokenType::Does => true,
        _ => false,
    }
}

/// `<course_query>` after the `course` keyword: a field sub-query wrapped in
/// a course query, or a direct `<condition> <string>` that becomes a course
/// query with those two children (a search of title and subject code).
pub open spec fn course_parse(inp: Seq<char>, ts: Seq<TokenV>, p: int) -> Parsed {
    if p >= ts.len() {
        expected_after(course_next(), "course"@, p, Seq::empty())
    } else if is_course_condition(ts[p].kind) {
        cond_string_parse(inp, ts, p, NodeType::CourseQuery, "CourseQuery"@, Some(ts[p - 1]))
    } else {
        let t = ts[p];
        let sub = match t.kind {
            TokenType::Subject => field_parse(inp, ts, p + 1, NodeType::SubjectQuery),
            TokenType::Number => field_parse(inp, ts, p + 1, NodeType::NumberQuery),
            TokenType::Title => field_parse(inp, ts, p + 1, NodeType::TitleQuery),
            TokenType::Description => field_parse(inp, ts, p + 1, NodeType::DescriptionQuery),
            TokenType::Credit => credit_parse(ts, p + 1),
            TokenType::Prereqs => list_field_parse(inp, ts, p + 1, NodeType::PrereqsQuery),
            TokenType::Corereqs => list_field_parse(inp, ts, p + 1, NodeType::CoreqsQuery),
            _ => if is_binop(t.kind) {
                wrong_here(lexeme(inp, t), "after 'course'"@, course_next(), t)
            } else {
                wrong_here(tok_desc(inp, t), "after 'course'"@, course_next(), t)
            },
        };
        wrap(sub, NodeType::CourseQuery, Some(ts[p - 1]))
    }
}

/// `<section_query>` after the `section` keyword: the sub-query named by
/// the keyword that follows, read past that keyword (`instruction` may be
/// followed by `method`, `enrollment` by `cap`), wrapped in a section query.
pub open spec fn section_parse(inp: Seq<char>, ts: Seq<TokenV>, p: int) -> Parsed {
    if p >= ts.len() {
        expected_after(section_next(), "section"@, p, Seq::empty())
    } else {
        let t = ts[p];
        let q = p + 1;
        let sub = match t.kind {
            TokenType::Subject => field_parse(inp, ts, q, NodeType::SubjectQuery),
            TokenType::Course => course_parse(inp, ts, q),
            TokenType::Enrollment => if q < ts.len() && ts[q].kind == TokenType::Cap {
                cap_parse(ts, q)
            } else {
                enrollment_parse(ts, q)
            },
            TokenType::Instruction => if q < ts.len() && ts[q].kind == TokenType::Method {
                field_parse(inp, ts, q + 1, NodeType::InstructionMethodQuery)
            } else {
                field_parse(inp, ts, q, NodeType::InstructionMethodQuery)
            },
            TokenType::Campus => field_parse(inp, ts, q, NodeType::CampusQuery),
            TokenType::Size => enrollment_parse(ts, q),
            TokenType::Cap => cap_parse(ts, q),
            TokenType::Full => field_parse(inp, ts, q, NodeType::FullQuery),
            _ => wrong_here(tok_desc(inp, t), "after 'section'"@, section_next(), t),
        };
        wrap(sub, NodeType::SectionQuery, Some(ts[p - 1]))
    }
}

/// `<time_range> ::= <time> "to" <time>`.
pub open spec fn time_range_parse(ts: Seq<TokenV>, p: int) -> Parsed {
    match time_parse(ts, p) {
        Parsed::Node(s, p1) => if p1 >= ts.len() {
            missing("Expected 'to' separator"@)
        } else if ts[p1].kind != TokenType::To {
            expected_after(to_word(), "start time"@, p1 + 1, one(ts[p1]))
        } else {
            match time_parse(ts, p1 + 1) {
                Parsed::Node(e, p2) => Parsed::Node(node2(NodeType::TimeRange, "TimeRange"@, Some(ts[p1]), s, e), p2),
                other => other,
            }
        },
        other => other,
    }
}

/// `<time_query> ::= ("start" | "end") (<binop> <time> | <time_range>)`
/// after the keyword; a range when the token after next is `to`.
pub open spec fn time_query_parse(inp: Seq<char>, ts: Seq<TokenV>, p: int) -> Parsed {
    let main = ts[p - 1];
    let k = main.kind;
    if k != TokenType::Start && k != TokenType::End {
        wrong_here(tok_desc(inp, main), "time query"@, start_end(), main)
    } else {
        let kind_node = leaf(NodeType::String, display_name(k), Some(main));
        if p >= ts.len() {
            missing("Expected operator or time after start/end"@)
        } else if p + 1 < ts.len() && ts[p + 1].kind == TokenType::To {
            match time_range_parse(ts, p) {
                Parsed::Node(r, q) => Parsed::Node(node2(NodeType::TimeQuery, "TimeQuery"@, Some(main), kind_node, r), q),
                other => other,
            }
        } else if !comparison_starts(ts, p) {
            missing("Expected comparison operator after start/end"@)
        } else {
            match binop_parse(ts, p) {
                Parsed::Node(b, p1) => match time_parse(ts, p1) {
                    Parsed::Node(tm, p2) => Parsed::Node(
                        node3(NodeType::TimeQuery, "TimeQuery"@, Some(main), kind_node, b, tm),
                        p2,
                    ),
                    other => other,
                },
                other => other,
            }
        }
    }
}

/// The lowercase name of a day token.
pub open spec fn day_word(k: TokenType) -> Option<Seq<char>> {
    match k {
        TokenType::Monday => Some("monday"@),
        TokenType::Tuesday => Some("tuesday"@),
        TokenType::Wednesday => Some("wednesday"@),
        TokenType::Thursday => Some("thursday"@),
        TokenType::Friday => Some("friday"@),
        TokenType::Saturday => Some("saturday"@),
        TokenType::Sunday => Some("sunday"@),
        _ => None,
    }
}

/// `<day_query>` after the day keyword: `<condition> <string>` under a
/// node named after the day.
pub open spec fn day_parse(inp: Seq<char>, ts: Seq<TokenV>, p: int) -> Parsed {
    let main = ts[p - 1];
    match day_word(main.kind) {
        Some(name) => wrap(
            cond_string_parse(inp, ts, p, NodeType::String, name, Some(main)),
            NodeType::DayQuery,
            Some(main),
        ),
        None => wrong_here(tok_desc(inp, main), "day name"@, day_names(), main),
    }
}

/// `<entity_query>`: a keyword and what follows it.
pub open spec fn entity_parse(inp: Seq<char>, ts: Seq<TokenV>, p: int) -> Parsed {
    if p >= ts.len() {
        expected_after(first_keywords(), "start of query"@, p, Seq::empty())
    } else {
        let t = ts[p];
        let q = p + 1;
        let sub = match t.kind {
            TokenType::Prof => field_parse(inp, ts, q, NodeType::ProfessorQuery),
            TokenType::Course => course_parse(inp, ts, q),
            TokenType::Subject => field_parse(inp, ts, q, NodeType::SubjectQuery),
            TokenType::Title => field_parse(inp, ts, q, NodeType::TitleQuery),
            TokenType::Section => section_parse(inp, ts, q),
            TokenType::Number => field_parse(inp, ts, q, NodeType::NumberQuery),
            TokenType::Description => field_parse(inp, ts, q, NodeType::DescriptionQuery),
            TokenType::Credit => credit_parse(ts, q),
            TokenType::Prereqs => list_field_parse(inp, ts, q, NodeType::PrereqsQuery),
            TokenType::Corereqs => list_field_parse(inp, ts, q, NodeType::CoreqsQuery),
            TokenType::Enrollment => if q < ts.len() && ts[q].kind == TokenType::Cap {
                cap_parse(ts, q)
            } else {
                enrollment_parse(ts, q)
            },
            TokenType::Size => enrollment_parse(ts, q),
            TokenType::Cap => cap_parse(ts, q),
            TokenType::Full => field_parse(inp, ts, q, NodeType::FullQuery),
            TokenType::Method => field_parse(inp, ts, q, NodeType::InstructionMethodQuery),
            TokenType::Campus => field_parse(inp, ts, q, NodeType::CampusQuery),
            TokenType::Meeting => if q < ts.len() && ts[q].kind == TokenType::Type {
                meeting_type_parse(inp, ts, q + 1)
            } else {
                expected_after(type_word(), "meeting"@, q, Seq::empty())
            },
            TokenType::Type => meeting_type_parse(inp, ts, q),
            TokenType::Time | TokenType::Start | TokenType::End => time_query_parse(inp, ts, q),
            TokenType::Monday | TokenType::Tuesday | TokenType::Wednesday | TokenType::Thursday
            | TokenType::Friday | TokenType::Saturday | TokenType::Sunday => day_parse(inp, ts, q),
            _ => wrong_here(tok_desc(inp, t), "query start"@, entities_short(), t),
        };
        wrap(sub, NodeType::EntityQuery, None)
    }
}

impl Parser {
    /// `"course" <condition> <string>` as a query on the course title and
    /// subject code.
    fn parse_direct_course(&mut self, tokens: &Vec<Token>) -> (r: Result<TreeNode, Failure>)
        requires
            1 <= old(self).token_pointer <= tokens.len(),
        ensures
            final(self).input_string == old(self).input_string,
            advanced(r, old(self).token_pointer, final(self).token_pointer, tokens.len() as int),
            result_view(r, final(self).token_pointer) == cond_string_parse(
                old(self).input_string@,
                tokens_view(tokens@),
                old(self).token_pointer as int,
                NodeType::CourseQuery,
                "CourseQuery"@,
                Some(tokens_view(tokens@)[old(self).token_pointer - 1]),
            ),
    {
        let course_token = token_at(tokens, self.token_pointer - 1);
        self.condition_then_string(tokens, NodeType::CourseQuery, NodeType::CourseQuery.to_string(), Some(course_token))
    }

    /// Parses the course query after `course`.
    fn parse_course_query(&mut self, tokens: &Vec<Token>) -> (r: Result<TreeNode, Failure>)
        requires
            1 <= old(self).token_pointer <= tokens.len(),
        ensures
            final(self).input_string == old(self).input_string,
            advanced(r, old(self).token_pointer, final(self).token_pointer, tokens.len() as int),
            result_view(r, final(self).token_pointer) == course_parse(
                old(self).input_string@,
                tokens_view(tokens@),
                old(self).token_pointer as int,
            ),
    {
        let p = self.token_pointer;
        let course_token = token_at(tokens, p - 1);
        if p >= tokens.len() {
            return Err(fail_expected(course_next_vec(), "course", p, no_tokens()));
        }
        let kind = kind_at(tokens, p);
        let sub = match kind {
            TokenType::Subject => {
                self.token_pointer = p + 1;
                self.parse_subject_query(tokens)
            },
            TokenType::Number => {
                self.token_pointer = p + 1;
                self.parse_number_query(tokens)
            },
            TokenType::Title => {
                self.token_pointer = p + 1;
                self.parse_title_query(tokens)
            },
            TokenType::Description => {
                self.token_pointer = p + 1;
                self.parse_description_query(tokens)
            },
            TokenType::Credit => {
                self.token_pointer = p + 1;
                self.parse_credit_hours_query(tokens)
            },
            TokenType::Prereqs => {
                self.token_pointer = p + 1;
                self.parse_prereqs_query(tokens)
            },
            TokenType::Corereqs => {
                self.token_pointer = p + 1;
                self.parse_coreqs_query(tokens)
            },
            TokenType::Equals | TokenType::NotEquals | TokenType::Contains | TokenType::Has
            | TokenType::Starts | TokenType::With | TokenType::Ends | TokenType::Is
            | TokenType::Equal | TokenType::EqualsWord | TokenType::Does => {
                return self.parse_direct_course(tokens);
            },
            _ => {
                let t = token_at(tokens, p);
                if Self::is_valid_binop_token(&kind) {
                    Err(fail_here(self.get_lexeme(&t), "after 'course'", course_next_vec(), t))
                } else {
                    Err(fail_here(self.describe(&t), "after 'course'", course_next_vec(), t))
                }
            },
        };
        wrap_result(sub, NodeType::CourseQuery, Some(course_token))
    }

    /// Parses the section query after `section`.
    fn parse_section_query(&mut self, tokens: &Vec<Token>) -> (r: Result<TreeNode, Failure>)
        requires
            1 <= old(self).token_pointer <= tokens.len(),
        ensures
            final(self).input_string == old(self).input_string,
            advanced(r, old(self).token_pointer, final(self).token_pointer, tokens.len() as int),
            result_view(r, final(self).token_pointer) == section_parse(
                old(self).input_string@,
                tokens_view(tokens@),
                old(self).token_pointer as int,
            ),
    {
        let p = self.token_pointer;
        let section_token = token_at(tokens, p - 1);
        if p >= tokens.len() {
            return Err(fail_expected(section_next_vec(), "section", p, no_tokens()));
        }
        let q = p + 1;
        let next_kind = if q < tokens.len() { Some(kind_at(tokens, q)) } else { None };
        let sub = match kind_at(tokens, p) {
            TokenType::Subject => {
                self.token_pointer = q;
                self.parse_subject_query(tokens)
            },
            TokenType::Course => {
                self.token_pointer = q;
                self.parse_course_query(tokens)
            },
            TokenType::Enrollment => {
                self.token_pointer = q;
                if next_kind == Some(TokenType::Cap) {
                    self.parse_enrollment_cap_query(tokens)
                } else {
                    self.parse_enrollment_query(tokens)
                }
            },
            TokenType::Instruction => {
                self.token_pointer = if next_kind == Some(TokenType::Method) { q + 1 } else { q };
                self.parse_instruction_method_query(tokens)
            },
            TokenType::Campus => {
                self.token_pointer = q;
                self.parse_campus_query(tokens)
            },
            TokenType::Size => {
                self.token_pointer = q;
                self.parse_enrollment_query(tokens)
            },
            TokenType::Cap => {
                self.token_pointer = q;
                self.parse_enrollment_cap_query(tokens)
            },
            TokenType::Full => {
                self.token_pointer = q;
                self.parse_full_query(tokens)
            },
            _ => {
                let t = token_at(tokens, p);
                Err(fail_here(self.describe(&t), "after 'section'", section_next_vec(), t))
            },
        };
        wrap_result(sub, NodeType::SectionQuery, Some(section_token))
    }

    /// Parses `<time> to <time>`.
    fn parse_time_range(&mut self, tokens: &Vec<Token>) -> (r: Result<TreeNode, Failure>)
        requires
            old(self).token_pointer <= tokens.len(),
        ensures
            final(self).input_string == old(self).input_string,
            advanced(r, old(self).token_pointer, final(self).token_pointer, tokens.len() as int),
            result_view(r, final(self).token_pointer) == time_range_parse(
                tokens_view(tokens@),
                old(self).token_pointer as int,
            ),
    {
        let start_time = match self.parse_time(tokens) {
            Ok(s) => s,
            Err(e) => return Err(e),
        };
        let p1 = self.token_pointer;
        if p1 >= tokens.len() {
            return Err(fail_missing("Expected 'to' separator"));
        }
        let to_token = token_at(tokens, p1);
        self.token_pointer = p1 + 1;
        if *to_token.get_token_type() != TokenType::To {
            return Err(fail_expected(to_word_vec(), "start time", p1 + 1, one_token(to_token)));
        }
        let end_time = match self.parse_time(tokens) {
            Ok(e) => e,
            Err(e) => return Err(e),
        };
        Ok(TreeNode::with2(NodeType::TimeRange, NodeType::TimeRange.to_string(), Some(to_token), start_time, end_time))
    }

    /// Parses the time query after `start`, `end` or `time`.
    fn parse_time_query(&mut self, tokens: &Vec<Token>) -> (r: Result<TreeNode, Failure>)
        requires
            1 <= old(self).token_pointer <= tokens.len(),
        ensures
            final(self).input_string == old(self).input_string,
            advanced(r, old(self).token_pointer, final(self).token_pointer, tokens.len() as int),
            result_view(r, final(self).token_pointer) == time_query_parse(
                old(self).input_string@,
                tokens_view(tokens@),
                old(self).token_pointer as int,
            ),
    {
        let p = self.token_pointer;
        let main = token_at(tokens, p - 1);
        let kind = *main.get_token_type();
        if kind != TokenType::Start && kind != TokenType::End {
            return Err(fail_here(self.describe(&main), "time query", start_end_vec(), main));
        }
        let kind_node = TreeNode::new(NodeType::String, kind.to_string(), Some(main.duplicate()));
        if p >= tokens.len() {
            return Err(fail_missing("Expected operator or time after start/end"));
        }
        if p + 1 < tokens.len() && kind_at(tokens, p + 1) == TokenType::To {
            let range = match self.parse_time_range(tokens) {
                Ok(r) => r,
                Err(e) => return Err(e),
            };
            return Ok(TreeNode::with2(NodeType::TimeQuery, NodeType::TimeQuery.to_string(), Some(main), kind_node, range));
        }
        if Self::comparison(tokens, p).is_none() {
            return Err(fail_missing("Expected comparison operator after start/end"));
        }
        let binop = match self.parse_binop(tokens) {
            Ok(b) => b,
            Err(e) => return Err(e),
        };
        let time = match self.parse_time(tokens) {
            Ok(t) => t,
            Err(e) => return Err(e),
        };
        Ok(TreeNode::with3(NodeType::TimeQuery, NodeType::TimeQuery.to_string(), Some(main), kind_node, binop, time))
    }

    /// Parses the monday query after its keyword.
    fn parse_monday_query(&mut self, tokens: &Vec<Token>) -> (r: Result<TreeNode, Failure>)
        requires
            1 <= old(self).token_pointer <= tokens.len(),
        ensures
            final(self).input_string == old(self).input_string,
            advanced(r, old(self).token_pointer, final(self).token_pointer, tokens.len() as int),
            result_view(r, final(self).token_pointer) == cond_string_parse(
                old(self).input_string@,
                tokens_view(tokens@),
                old(self).token_pointer as int,
                NodeType::String,
                "monday"@,
                Some(tokens_view(tokens@)[old(self).token_pointer - 1]),
            ),
    {
        let day_token = token_at(tokens, self.token_pointer - 1);
        self.condition_then_string(tokens, NodeType::String, "monday".to_string(), Some(day_token))
    }

    /// Parses the tuesday query after its keyword.
    fn parse_tuesday_query(&mut self, tokens: &Vec<Token>) -> (r: Result<TreeNode, Failure>)
        requires
            1 <= old(self).token_pointer <= tokens.len(),
        ensures
            final(self).input_string == old(self).input_string,
            advanced(r, old(self).token_pointer, final(self).token_pointer, tokens.len() as int),
            result_view(r, final(self).token_pointer) == cond_string_parse(
                old(self).input_string@,
                tokens_view(tokens@),
                old(self).token_pointer as int,
                NodeType::String,
                "tuesday"@,
                Some(tokens_view(tokens@)[old(self).token_pointer - 1]),
            ),
    {
        let day_token = token_at(tokens, self.token_pointer - 1);
        self.condition_then_string(tokens, NodeType::String, "tuesday".to_string(), Some(day_token))
    }

    /// Parses the wednesday query after its keyword.
    fn parse_wednesday_query(&mut self, tokens: &Vec<Token>) -> (r: Result<TreeNode, Failure>)
        requires
            1 <= old(self).token_pointer <= tokens.len(),
        ensures
            final(self).input_string == old(self).input_string,
            advanced(r, old(self).token_pointer, final(self).token_pointer, tokens.len() as int),
            result_view(r, final(self).token_pointer) == cond_string_parse(
                old(self).input_string@,
                tokens_view(tokens@),
                old(self).token_pointer as int,
                NodeType::String,
                "wednesday"@,
                Some(tokens_view(tokens@)[old(self).token_pointer - 1]),
            ),
    {
        let day_token = token_at(tokens, self.token_pointer - 1);
        self.condition_then_string(tokens, NodeType::String, "wednesday".to_string(), Some(day_token))
    }

    /// Parses the thursday query after its keyword.
    fn parse_thursday_query(&mut self, tokens: &Vec<Token>) -> (r: Result<TreeNode, Failure>)
        requires
            1 <= old(self).token_pointer <= tokens.len(),
        ensures
            final(self).input_string == old(self).input_string,
            advanced(r, old(self).token_pointer, final(self).token_pointer, tokens.len() as int),
            result_view(r, final(self).token_pointer) == cond_string_parse(
                old(self).input_string@,
                tokens_view(tokens@),
                old(self).token_pointer as int,
                NodeType::String,
                "thursday"@,
                Some(tokens_view(tokens@)[old(self).token_pointer - 1]),
            ),
    {
        let day_token = token_at(tokens, self.token_pointer - 1);
        self.condition_then_string(tokens, NodeType::String, "thursday".to_string(), Some(day_token))
    }

    /// Parses the friday query after its keyword.
    fn parse_friday_query(&mut self, tokens: &Vec<Token>) -> (r: Result<TreeNode, Failure>)
        requires
            1 <= old(self).token_pointer <= tokens.len(),
        ensures
            final(self).input_string == old(self).input_string,
            advanced(r, old(self).token_pointer, final(self).token_pointer, tokens.len() as int),
            result_view(r, final(self).token_pointer) == cond_string_parse(
                old(self).input_string@,
                tokens_view(tokens@),
                old(self).token_pointer as int,
                NodeType::String,
                "friday"@,
                Some(tokens_view(tokens@)[old(self).token_pointer - 1]),
            ),
    {
        let day_token = token_at(tokens, self.token_pointer - 1);
        self.condition_then_string(tokens, NodeType::String, "friday".to_string(), Some(day_token))
    }

    /// Parses the saturday query after its keyword.
    fn parse_saturday_query(&mut self, tokens: &Vec<Token>) -> (r: Result<TreeNode, Failure>)
        requires
            1 <= old(self).token_pointer <= tokens.len(),
        ensures
            final(self).input_string == old(self).input_string,
            advanced(r, old(self).token_pointer, final(self).token_pointer, tokens.len() as int),
            result_view(r, final(self).token_pointer) == cond_string_parse(
                old(self).input_string@,
                tokens_view(tokens@),
                old(self).token_pointer as int,
                NodeType::String,
                "saturday"@,
                Some(tokens_view(tokens@)[old(self).token_pointer - 1]),
            ),
    {
        let day_token = token_at(tokens, self.token_pointer - 1);
        self.condition_then_string(tokens, NodeType::String, "saturday".to_string(), Some(day_token))
    }

    /// Parses the sunday query after its keyword.
    fn parse_sunday_query(&mut self, tokens: &Vec<Token>) -> (r: Result<TreeNode, Failure>)
        requires
            1 <= old(self).token_pointer <= tokens.len(),
        ensures
            final(self).input_string == old(self).input_string,
            advanced(r, old(self).token_pointer, final(self).token_pointer, tokens.len() as int),
            result_view(r, final(self).token_pointer) == cond_string_parse(
                old(self).input_string@,
                tokens_view(tokens@),
                old(self).token_pointer as int,
                NodeType::String,
                "sunday"@,
                Some(tokens_view(tokens@)[old(self).token_pointer - 1]),
            ),
    {
        let day_token = token_at(tokens, self.token_pointer - 1);
        self.condition_then_string(tokens, NodeType::String, "sunday".to_string(), Some(day_token))
    }

    /// Parses the day query after a day keyword.
    fn parse_day_query(&mut self, tokens: &Vec<Token>) -> (r: Result<TreeNode, Failure>)
        requires
            1 <= old(self).token_pointer <= tokens.len(),
        ensures
            final(self).input_string == old(self).input_string,
            advanced(r, old(self).token_pointer, final(self).token_pointer, tokens.len() as int),
            result_view(r, final(self).token_pointer) == day_parse(
                old(self).input_string@,
                tokens_view(tokens@),
                old(self).token_pointer as int,
            ),
    {
        let day_token = token_at(tokens, self.token_pointer - 1);
        let sub = match *day_token.get_token_type() {
            TokenType::Monday => self.parse_monday_query(tokens),
            TokenType::Tuesday => self.parse_tuesday_query(tokens),
            TokenType::Wednesday => self.parse_wednesday_query(tokens),
            TokenType::Thursday => self.parse_thursday_query(tokens),
            TokenType::Friday => self.parse_friday_query(tokens),
            TokenType::Saturday => self.parse_saturday_query(tokens),
            TokenType::Sunday => self.parse_sunday_query(tokens),
            _ => return Err(fail_here(self.describe(&day_token), "day name", day_names_vec(), day_token)),
        };
        wrap_result(sub, NodeType::DayQuery, Some(day_token))
    }

    /// Parses an entity query: a keyword and what follows it.
    #[verifier::rlimit(50)]
    fn parse_entity_query(&mut self, tokens: &Vec<Token>) -> (r: Result<TreeNode, Failure>)
        requires
            old(self).token_pointer <= tokens.len(),
        ensures
            final(self).input_string == old(self).input_string,
            advanced(r, old(self).token_pointer, final(self).token_pointer, tokens.len() as int),
            result_view(r, final(self).token_pointer) == entity_parse(
                old(self).input_string@,
                tokens_view(tokens@),
                old(self).token_pointer as int,
            ),
    {
        let p = self.token_pointer;
        if p >= tokens.len() {
            return Err(fail_expected(first_keywords_vec(), "start of query", p, no_tokens()));
        }
        let q = p + 1;
        self.token_pointer = q;
        let sub = match kind_at(tokens, p) {
            TokenType::Prof => self.parse_professor_query(tokens),
            TokenType::Course => self.parse_course_query(tokens),
            TokenType::Subject => self.parse_subject_query(tokens),
            TokenType::Title => self.parse_title_query(tokens),
            TokenType::Section => self.parse_section_query(tokens),
            TokenType::Number => self.parse_number_query(tokens),
            TokenType::Description => self.parse_description_query(tokens),
            TokenType::Credit => self.parse_credit_hours_query(tokens),
            TokenType::Prereqs => self.parse_prereqs_query(tokens),
            TokenType::Corereqs => self.parse_coreqs_query(tokens),
            TokenType::Enrollment => {
                if q < tokens.len() && kind_at(tokens, q) == TokenType::Cap {
                    self.parse_enrollment_cap_query(tokens)
                } else {
                    self.parse_enrollment_query(tokens)
                }
            },
            TokenType::Size => self.parse_enrollment_query(tokens),
            TokenType::Cap => self.parse_enrollment_cap_query(tokens),
            TokenType::Full => self.parse_full_query(tokens),
            TokenType::Method => self.parse_instruction_method_query(tokens),
            TokenType::Campus => self.parse_campus_query(tokens),
            TokenType::Meeting => {
                if q < tokens.len() && kind_at(tokens, q) == TokenType::Type {
                    self.token_pointer = q + 1;
                    self.parse_meeting_type_query(tokens)
                } else {
                    Err(fail_expected(type_word_vec(), "meeting", q, no_tokens()))
                }
            },
            TokenType::Type => self.parse_meeting_type_query(tokens),
            TokenType::Time | TokenType::Start | TokenType::End => self.parse_time_query(tokens),
            TokenType::Monday | TokenType::Tuesday | TokenType::Wednesday | TokenType::Thursday
            | TokenType::Friday | TokenType::Saturday | TokenType::Sunday => self.parse_day_query(tokens),
            _ => {
                let t = token_at(tokens, p);
                Err(fail_here(self.describe(&t), "query start", entities_short_vec(), t))
            },
        };
        wrap_result(sub, NodeType::EntityQuery, None)
    }
}

// ---------------------------------------------------------------------------
// Logical structure and the whole query
// ---------------------------------------------------------------------------

/// `<logical_factor> ::= "not" <logical_factor> | "(" <query> ")" |
/// <entity_query>`.
pub open spec fn factor_parse(inp: Seq<char>, ts: Seq<TokenV>, p: int) -> Parsed
    decreases ts.len() - p, 2int,
{
    if p < ts.len() && ts[p].kind == TokenType::Not {
        match factor_parse(inp, ts, p + 1) {
            Parsed::Node(f, p1) => Parsed::Node(
                node1(
                    NodeType::LogicalFactor,
                    "LogicalFactor"@,
                    None,
                    node1(NodeType::T(TokenType::Not), debug_name(TokenType::Not), Some(ts[p]), f),
                ),
                p1,
            ),
            other => other,
        }
    } else if p < ts.len() && ts[p].kind == TokenType::LeftParen {
        match query_parse(inp, ts, p + 1) {
            Parsed::Node(q, p1) => if p1 >= ts.len() {
                missing("Expected closing parenthesis"@)
            } else if ts[p1].kind != TokenType::RightParen {
                Parsed::Error(SyntaxErrorV::UnclosedParenthesis, one(ts[p]))
            } else {
                Parsed::Node(node1(NodeType::LogicalFactor, "LogicalFactor"@, None, q), p1 + 1)
            },
            other => other,
        }
    } else {
        wrap(entity_parse(inp, ts, p), NodeType::LogicalFactor, None)
    }
}

/// `("and" <logical_factor>)*` after the factors read so far, which are
/// combined into `acc`, left to right.
pub open spec fn term_tail_parse(inp: Seq<char>, ts: Seq<TokenV>, p: int, acc: SNode) -> Parsed
    decreases ts.len() - p, 1int,
{
    if p < ts.len() && ts[p].kind == TokenType::And {
        match factor_parse(inp, ts, p + 1) {
            Parsed::Node(g, p2) => if p + 1 < p2 <= ts.len() {
                term_tail_parse(
                    inp,
                    ts,
                    p2,
                    node2(NodeType::T(TokenType::And), debug_name(TokenType::And), Some(ts[p]), acc, g),
                )
            } else {
                Parsed::Stuck
            },
            other => other,
        }
    } else {
        Parsed::Node(acc, p)
    }
}

/// `<logical_term> ::= <logical_factor> ("and" <logical_factor>)*`.
pub open spec fn term_parse(inp: Seq<char>, ts: Seq<TokenV>, p: int) -> Parsed
    decreases ts.len() - p, 3int,
{
    match factor_parse(inp, ts, p) {
        Parsed::Node(f, p1) => if p < p1 <= ts.len() {
            wrap(term_tail_parse(inp, ts, p1, f), NodeType::LogicalTerm, None)
        } else {
            Parsed::Stuck
        },
        other => other,
    }
}

/// `("or" <logical_term>)*` after the terms read so far, which are combined
/// into `acc`, left to right.
pub open spec fn query_tail_parse(inp: Seq<char>, ts: Seq<TokenV>, p: int, acc: SNode) -> Parsed
    decreases ts.len() - p, 0int,
{
    if p < ts.len() && ts[p].kind == TokenType::Or {
        match term_parse(inp, ts, p + 1) {
            Parsed::Node(g, p2) => if p + 1 < p2 <= ts.len() {
                query_tail_parse(
                    inp,
                    ts,
                    p2,
                    node2(NodeType::T(TokenType::Or), debug_name(TokenType::Or), Some(ts[p]), acc, g),
                )
            } else {
                Parsed::Stuck
            },
            other => other,
        }
    } else {
        Parsed::Node(acc, p)
    }
}

/// `<query> ::= <logical_term> ("or" <logical_term>)*`.
pub open spec fn query_parse(inp: Seq<char>, ts: Seq<TokenV>, p: int) -> Parsed
    decreases ts.len() - p, 4int,
{
    match term_parse(inp, ts, p) {
        Parsed::Node(t, p1) => if p < p1 <= ts.len() {
            wrap(query_tail_parse(inp, ts, p1, t), NodeType::Query, None)
        } else {
            Parsed::Stuck
        },
        other => other,
    }
}


/// The outcome of parsing a whole token stream: an empty stream is an
/// `EmptyQuery`, and a query must consume every token (a token left over is
/// reported as out of place at the end of the query).
pub open spec fn parse_outcome(inp: Seq<char>, ts: Seq<TokenV>) -> Parsed {
    if ts.len() == 0 {
        Parsed::Error(SyntaxErrorV::EmptyQuery, Seq::empty())
    } else {
        match query_parse(inp, ts, 0) {
            Parsed::Node(q, p1) => if p1 < ts.len() {
                wrong_here(tok_desc(inp, ts[p1]), "end of query"@, query_end(), ts[p1])
            } else if p1 == ts.len() {
                Parsed::Node(q, p1)
            } else {
                Parsed::Stuck
            },
            other => other,
        }
    }
}

/// The value of what `Parser::parse` returns, with `n` the number of tokens.
pub open spec fn ast_outcome(r: Result<Ast, (SyntaxError, Vec<Token>)>, n: int) -> Parsed {
    match r {
        Ok(a) => match a.head {
            Some(h) => Parsed::Node(h@, n),
            None => Parsed::Stuck,
        },
        Err((e, v)) => Parsed::Error(e@, tokens_view(v@)),
    }
}

/// Suggestions by the kind of the last token, offered where a token is
/// missing.
pub open spec fn context_suggestions(ts: Seq<TokenV>) -> Seq<Seq<char>> {
    if ts.len() == 0 {
        first_words()
    } else {
        match ts.last().kind {
            TokenType::Prof => prof_next(),
            TokenType::Course => course_fields(),
            TokenType::Credit => hours_word(),
            TokenType::Meeting => type_word(),
            TokenType::Size | TokenType::Enrollment | TokenType::Start | TokenType::End => simple_compare(),
            TokenType::Is | TokenType::Equals | TokenType::Contains => value_placeholder(),
            TokenType::Identifier | TokenType::String => logical_ops(),
            _ => Seq::empty(),
        }
    }
}

/// Each term reworded for completion.
pub open spec fn friendly_all(terms: Seq<Seq<char>>) -> Seq<Seq<char>> {
    terms.map_values(|t: Seq<char>| friendly_for_completion(t))
}

/// Completion suggestions: `and`/`or` after a complete query; otherwise
/// what the syntax error expected or suggested, reworded; the suggestions by
/// the last token where a token is missing; the query keywords for an empty
/// query.
pub open spec fn completions(inp: Seq<char>, ts: Seq<TokenV>) -> Seq<Seq<char>> {
    match parse_outcome(inp, ts) {
        Parsed::Node(_, _) => logical_ops(),
        Parsed::Error(SyntaxErrorV::ExpectedAfter { expected, .. }, _) => friendly_all(expected),
        Parsed::Error(SyntaxErrorV::InvalidContext { suggestions, .. }, _) => friendly_all(suggestions),
        Parsed::Error(SyntaxErrorV::MissingToken(_), _) => context_suggestions(ts),
        Parsed::Error(SyntaxErrorV::EmptyQuery, _) => entities(),
        _ => Seq::empty(),
    }
}

fn friendly_terms(terms: &Vec<String>) -> (r: Vec<String>)
    ensures
        r.deep_view() == friendly_all(terms.deep_view()),
{
    let mut r: Vec<String> = Vec::new();
    let mut i: usize = 0;
    while i < terms.len()
        invariant
            i <= terms.len(),
            r.deep_view() == friendly_all(terms.deep_view().subrange(0, i as int)),
        decreases terms.len() - i,
    {
        let f = make_user_friendly_for_completion(terms[i].as_str());
        let ghost before = r.deep_view();
        r.push(f);
        proof {
            assert(terms.deep_view()[i as int] == terms[i as int]@);
            assert(terms.deep_view().subrange(0, i + 1) =~= terms.deep_view().subrange(0, i as int).push(terms[i as int]@));
            assert(r.deep_view() =~= before.push(f@));
            assert(friendly_all(terms.deep_view().subrange(0, i + 1)) =~= friendly_all(terms.deep_view().subrange(0, i as int)).push(f@));
        }
        i = i + 1;
    }
    assert(terms.deep_view().subrange(0, i as int) =~= terms.deep_view());
    r
}

impl Parser {
    /// Parses a logical factor.
    fn parse_logical_factor(&mut self, tokens: &Vec<Token>) -> (r: Result<TreeNode, Failure>)
        requires
            old(self).token_pointer <= tokens.len(),
        ensures
            final(self).input_string == old(self).input_string,
            advanced(r, old(self).token_pointer, final(self).token_pointer, tokens.len() as int),
            result_view(r, final(self).token_pointer) == factor_parse(
                old(self).input_string@,
                tokens_view(tokens@),
                old(self).token_pointer as int,
            ),
        decreases tokens@.len() - old(self).token_pointer, 2int,
    {
        let p = self.token_pointer;
        if p < tokens.len() && kind_at(tokens, p) == TokenType::Not {
            let not_token = token_at(tokens, p);
            self.token_pointer = p + 1;
            let factor = match self.parse_logical_factor(tokens) {
                Ok(f) => f,
                Err(e) => return Err(e),
            };
            let not_node = TreeNode::with1(
                NodeType::T(TokenType::Not),
                NodeType::T(TokenType::Not).to_string(),
                Some(not_token),
                factor,
            );
            return Ok(TreeNode::with1(NodeType::LogicalFactor, NodeType::LogicalFactor.to_string(), None, not_node));
        }
        if p < tokens.len() && kind_at(tokens, p) == TokenType::LeftParen {
            let left_paren = token_at(tokens, p);
            self.token_pointer = p + 1;
            let query = match self.parse_query(tokens) {
                Ok(q) => q,
                Err(e) => return Err(e),
            };
            let p1 = self.token_pointer;
            if p1 >= tokens.len() {
                return Err(fail_missing("Expected closing parenthesis"));
            }
            let right_paren = token_at(tokens, p1);
            self.token_pointer = p1 + 1;
            if *right_paren.get_token_type() != TokenType::RightParen {
                return Err(Failure::Syntax(SyntaxError::UnclosedParenthesis, one_token(left_paren)));
            }
            return Ok(TreeNode::with1(NodeType::LogicalFactor, NodeType::LogicalFactor.to_string(), None, query));
        }
        let entity = self.parse_entity_query(tokens);
        wrap_result(entity, NodeType::LogicalFactor, None)
    }

    /// Parses a logical term: factors joined by `and`.
    fn parse_logical_term(&mut self, tokens: &Vec<Token>) -> (r: Result<TreeNode, Failure>)
        requires
            old(self).token_pointer <= tokens.len(),
        ensures
            final(self).input_string == old(self).input_string,
            advanced(r, old(self).token_pointer, final(self).token_pointer, tokens.len() as int),
            result_view(r, final(self).token_pointer) == term_parse(
                old(self).input_string@,
                tokens_view(tokens@),
                old(self).token_pointer as int,
            ),
        decreases tokens@.len() - old(self).token_pointer, 3int,
    {
        let ghost inp = self.input_string@;
        let ghost s0 = self.input_string;
        let p0 = self.token_pointer;
        let mut acc = match self.parse_logical_factor(tokens) {
            Ok(f) => f,
            Err(e) => return Err(e),
        };
        loop
            invariant
                self.input_string == s0,
                old(self).input_string == s0,
                old(self).token_pointer == p0,
                inp == s0@,
                p0 < self.token_pointer <= tokens.len(),
                term_parse(inp, tokens_view(tokens@), p0 as int) == wrap(
                    term_tail_parse(inp, tokens_view(tokens@), self.token_pointer as int, acc@),
                    NodeType::LogicalTerm,
                    None,
                ),
            decreases tokens.len() - self.token_pointer,
        {
            let p = self.token_pointer;
            if p >= tokens.len() || kind_at(tokens, p) != TokenType::And {
                return Ok(TreeNode::with1(NodeType::LogicalTerm, NodeType::LogicalTerm.to_string(), None, acc));
            }
            let and_token = token_at(tokens, p);
            self.token_pointer = p + 1;
            let next = match self.parse_logical_factor(tokens) {
                Ok(f) => f,
                Err(e) => return Err(e),
            };
            acc = TreeNode::with2(
                NodeType::T(TokenType::And),
                NodeType::T(TokenType::And).to_string(),
                Some(and_token),
                acc,
                next,
            );
        }
    }

    /// Parses a query: terms joined by `or`.
    fn parse_query(&mut self, tokens: &Vec<Token>) -> (r: Result<TreeNode, Failure>)
        requires
            old(self).token_pointer <= tokens.len(),
        ensures
            final(self).input_string == old(self).input_string,
            advanced(r, old(self).token_pointer, final(self).token_pointer, tokens.len() as int),
            result_view(r, final(self).token_pointer) == query_parse(
                old(self).input_string@,
                tokens_view(tokens@),
                old(self).token_pointer as int,
            ),
        decreases tokens@.len() - old(self).token_pointer, 4int,
    {
        let ghost inp = self.input_string@;
        let ghost s0 = self.input_string;
        let p0 = self.token_pointer;
        let mut acc = match self.parse_logical_term(tokens) {
            Ok(t) => t,
            Err(e) => return Err(e),
        };
        loop
            invariant
                self.input_string == s0,
                old(self).input_string == s0,
                old(self).token_pointer == p0,
                inp == s0@,
                p0 < self.token_pointer <= tokens.len(),
                query_parse(inp, tokens_view(tokens@), p0 as int) == wrap(
                    query_tail_parse(inp, tokens_view(tokens@), self.token_pointer as int, acc@),
                    NodeType::Query,
                    None,
                ),
            decreases tokens.len() - self.token_pointer,
        {
            let p = self.token_pointer;
            if p >= tokens.len() || kind_at(tokens, p) != TokenType::Or {
                return Ok(TreeNode::with1(NodeType::Query, NodeType::Query.to_string(), None, acc));
            }
            let or_token = token_at(tokens, p);
            self.token_pointer = p + 1;
            let next = match self.parse_logical_term(tokens) {
                Ok(t) => t,
                Err(e) => return Err(e),
            };
            acc = TreeNode::with2(
                NodeType::T(TokenType::Or),
                NodeType::T(TokenType::Or).to_string(),
                Some(or_token),
                acc,
                next,
            );
        }
    }

    /// Parses the whole token stream.
    fn run_parse(&mut self, tokens: &Vec<Token>) -> (r: Result<Ast, Failure>)
        ensures
            final(self).input_string == old(self).input_string,
            match r {
                Ok(a) => (a.head matches Some(h) && parse_outcome(old(self).input_string@, tokens_view(tokens@))
                    == Parsed::Node(h@, tokens@.len() as int)),
                Err(Failure::Syntax(e, v)) => parse_outcome(old(self).input_string@, tokens_view(tokens@))
                    == Parsed::Error(e@, tokens_view(v@)),
                Err(Failure::Stuck) => parse_outcome(old(self).input_string@, tokens_view(tokens@)) is Stuck,
            },
    {
        self.token_pointer = 0;
        self.ast = Ast::new();
        if tokens.len() == 0 {
            return Err(Failure::Syntax(SyntaxError::EmptyQuery, no_tokens()));
        }
        let query = match self.parse_query(tokens) {
            Ok(q) => q,
            Err(e) => return Err(e),
        };
        self.ast.head = Some(query);
        let p = self.token_pointer;
        if p < tokens.len() {
            let t = token_at(tokens, p);
            return Err(fail_here(self.describe(&t), "end of query", query_end_vec(), t));
        }
        let head = self.ast.head.take();
        Ok(Ast { head })
    }

    /// Parses the tokens into a syntax tree, or reports the first syntax
    /// error with the tokens it concerns.
    pub fn parse(&mut self, tokens: &Vec<Token>) -> (r: Result<Ast, (SyntaxError, Vec<Token>)>)
        requires
            !(parse_outcome(old(self).input(), tokens_view(tokens@)) is Stuck),
        ensures
            final(self).input() == old(self).input(),
            ast_outcome(r, tokens@.len() as int) == parse_outcome(old(self).input(), tokens_view(tokens@)),
            r is Ok ==> r->Ok_0.head is Some,
            tokens@.len() == 0 ==> (r matches Err((SyntaxError::EmptyQuery, v)) && v@.len() == 0),
    {
        match self.run_parse(tokens) {
            Ok(a) => Ok(a),
            Err(Failure::Syntax(e, v)) => {
                assert(tokens_view(v@).len() == v@.len());
                Err((e, v))
            },
            Err(Failure::Stuck) => Err((SyntaxError::EmptyQuery, Vec::new())),
        }
    }

    /// Parses the tokens as `parse` does, or gives `None` where `parse`
    /// cannot go on (its precondition fails).
    pub fn try_parse(&mut self, tokens: &Vec<Token>) -> (r: Option<Result<Ast, (SyntaxError, Vec<Token>)>>)
        ensures
            final(self).input() == old(self).input(),
            r is None <==> parse_outcome(old(self).input(), tokens_view(tokens@)) is Stuck,
            r matches Some(x) ==> ast_outcome(x, tokens@.len() as int) == parse_outcome(old(self).input(), tokens_view(tokens@)),
    {
        match self.run_parse(tokens) {
            Ok(a) => Some(Ok(a)),
            Err(Failure::Syntax(e, v)) => Some(Err((e, v))),
            Err(Failure::Stuck) => None,
        }
    }

    /// Suggestions by the kind of the last token.
    fn get_context_suggestions(&self, tokens: &Vec<Token>) -> (r: Vec<String>)
        ensures
            r.deep_view() == context_suggestions(tokens_view(tokens@)),
    {
        if tokens.len() == 0 {
            return first_words_vec();
        }
        match kind_at(tokens, tokens.len() - 1) {
            TokenType::Prof => prof_next_vec(),
            TokenType::Course => course_fields_vec(),
            TokenType::Credit => hours_word_vec(),
            TokenType::Meeting => type_word_vec(),
            TokenType::Size | TokenType::Enrollment | TokenType::Start | TokenType::End => simple_compare_vec(),
            TokenType::Is | TokenType::Equals | TokenType::Contains => value_placeholder_vec(),
            TokenType::Identifier | TokenType::String => logical_ops_vec(),
            _ => {
                let r: Vec<String> = Vec::new();
                assert(r.deep_view() =~= Seq::<Seq<char>>::empty());
                r
            },
        }
    }

    /// Completion suggestions for the tokens typed so far.
    pub fn get_completion_suggestions(&mut self, tokens: &Vec<Token>) -> (r: Vec<String>)
        requires
            !(parse_outcome(old(self).input(), tokens_view(tokens@)) is Stuck),
        ensures
            final(self).input() == old(self).input(),
            r.deep_view() == completions(old(self).input(), tokens_view(tokens@)),
    {
        self.token_pointer = 0;
        self.ast = Ast::new();
        match self.parse(tokens) {
            Ok(_) => logical_ops_vec(),
            Err((error, _)) => match error {
                SyntaxError::ExpectedAfter { expected, .. } => friendly_terms(&expected),
                SyntaxError::InvalidContext { suggestions, .. } => friendly_terms(&suggestions),
                SyntaxError::MissingToken(_) => self.get_context_suggestions(tokens),
                SyntaxError::EmptyQuery => entities_vec(),
                _ => {
                    let r: Vec<String> = Vec::new();
                    assert(r.deep_view() =~= Seq::<Seq<char>>::empty());
                    r
                },
            },
        }
    }

    /// Completion suggestions as `get_completion_suggestions` gives them, or
    /// `None` where the tokens cannot be parsed at all.
    pub fn try_get_completion_suggestions(&mut self, tokens: &Vec<Token>) -> (r: Option<Vec<String>>)
        ensures
            final(self).input() == old(self).input(),
            r is None <==> parse_outcome(old(self).input(), tokens_view(tokens@)) is Stuck,
            r matches Some(v) ==> v.deep_view() == completions(old(self).input(), tokens_view(tokens@)),
    {
        match self.try_parse(tokens) {
            None => None,
            Some(_) => Some(self.get_completion_suggestions(tokens)),
        }
    }
}

// ---------------------------------------------------------------------------
// Properties of parsing
// ---------------------------------------------------------------------------

/// A query parses only as a whole: a successful parse has consumed every
/// token, and its tree is a `Query` node with a single child.
pub proof fn lemma_parse_consumes_all(inp: Seq<char>, ts: Seq<TokenV>)
    ensures
        parse_outcome(inp, ts) matches Parsed::Node(q, p) ==> p == ts.len() && q.node_type == NodeType::Query
            && q.children.len() == 1 && q.token is None,
{
    if ts.len() > 0 {
        match term_parse(inp, ts, 0) {
            Parsed::Node(t, p1) => if 0 < p1 <= ts.len() {
                assert(query_parse(inp, ts, 0) == wrap(query_tail_parse(inp, ts, p1, t), NodeType::Query, None));
            },
            _ => {},
        }
    }
}

/// An empty token stream is an empty query, and completing it offers the
/// query keywords.
pub proof fn lemma_empty_query(inp: Seq<char>)
    ensures
        parse_outcome(inp, Seq::empty()) == Parsed::Error(SyntaxErrorV::EmptyQuery, Seq::empty()),
        completions(inp, Seq::empty()) == entities(),
{
}

/// Once the tokens form a complete query, the only completions are the
/// logical connectives `and` and `or`.
pub proof fn lemma_complete_query_completions(inp: Seq<char>, ts: Seq<TokenV>)
    requires
        parse_outcome(inp, ts) is Node,
    ensures
        completions(inp, ts) == logical_ops(),
{
}

/// A syntax error that names what it expected offers those words, reworded,
/// as completions.
pub proof fn lemma_error_completions(inp: Seq<char>, ts: Seq<TokenV>)
    ensures
        parse_outcome(inp, ts) matches Parsed::Error(SyntaxErrorV::ExpectedAfter { expected, .. }, _)
            ==> completions(inp, ts) == friendly_all(expected),
        parse_outcome(inp, ts) matches Parsed::Error(SyntaxErrorV::InvalidContext { suggestions, .. }, _)
            ==> completions(inp, ts) == friendly_all(suggestions),
{
}

// ---------------------------------------------------------------------------
// Syntax errors point into the query
// ---------------------------------------------------------------------------

/// Every token an error result points at is one of the tokens `ts`.
pub open spec fn points_into(r: Parsed, ts: Seq<TokenV>) -> bool {
    r matches Parsed::Error(_, v) ==> forall|i: int| 0 <= i < v.len() ==> #[trigger] ts.contains(v[i])
}

proof fn lemma_in(ts: Seq<TokenV>, k: int)
    requires
        0 <= k < ts.len(),
    ensures
        ts.contains(ts[k]),
{
}

proof fn lemma_leaf_points(inp: Seq<char>, ts: Seq<TokenV>, p: int)
    requires
        0 <= p,
    ensures
        points_into(condition_parse(inp, ts, p), ts),
        points_into(binop_parse(ts, p), ts),
        points_into(string_parse(inp, ts, p), ts),
        points_into(identifier_parse(inp, ts, p), ts),
{
    if p < ts.len() {
        lemma_in(ts, p);
    }
}

proof fn lemma_cond_string_points(inp: Seq<char>, ts: Seq<TokenV>, p: int, nt: NodeType, content: Seq<char>, tok: Option<TokenV>)
    requires
        0 <= p,
    ensures
        points_into(cond_string_parse(inp, ts, p, nt, content, tok), ts),
{
    lemma_leaf_points(inp, ts, p);
    match condition_parse(inp, ts, p) {
        Parsed::Node(_, p1) => lemma_leaf_points(inp, ts, p1),
        _ => {},
    }
}

proof fn lemma_list_tail_points(inp: Seq<char>, ts: Seq<TokenV>, p: int, acc: Seq<SNode>)
    requires
        0 <= p <= ts.len(),
    ensures
        points_into(list_tail_parse(inp, ts, p, acc), ts),
    decreases ts.len() - p,
{
    if p < ts.len() && is_separator(ts[p].kind) {
        lemma_leaf_points(inp, ts, p + 1);
        match string_parse(inp, ts, p + 1) {
            Parsed::Node(s, p2) => if p + 1 < p2 <= ts.len() {
                lemma_list_tail_points(inp, ts, p2, acc.push(s));
            },
            _ => {},
        }
    }
}

proof fn lemma_fields_point(inp: Seq<char>, ts: Seq<TokenV>, p: int)
    requires
        1 <= p <= ts.len(),
    ensures
        forall|nt: NodeType| #[trigger] points_into(field_parse(inp, ts, p, nt), ts),
        forall|nt: NodeType| #[trigger] points_into(list_field_parse(inp, ts, p, nt), ts),
        points_into(meeting_type_parse(inp, ts, p), ts),
        points_into(credit_parse(ts, p), ts),
        points_into(cap_parse(ts, p), ts),
        points_into(enrollment_parse(ts, p), ts),
{
    assert forall|nt: NodeType| #[trigger] points_into(field_parse(inp, ts, p, nt), ts) by {
        lemma_cond_string_points(inp, ts, p, nt, node_type_name(nt), Some(ts[p - 1]));
    }
    lemma_leaf_points(inp, ts, p);
    match string_parse(inp, ts, p) {
        Parsed::Node(s, p1) => if 0 <= p1 <= ts.len() {
            lemma_list_tail_points(inp, ts, p1, Seq::empty().push(s));
        },
        _ => {},
    }
    let main = if p > 1 && ts[p - 2].kind == TokenType::Meeting { ts[p - 2] } else { ts[p - 1] };
    lemma_cond_string_points(inp, ts, p, NodeType::MeetingTypeQuery, "MeetingTypeQuery"@, Some(main));
    if p < ts.len() {
        lemma_in(ts, p);
    }
    lemma_leaf_points(inp, ts, p + 1);
}

proof fn lemma_course_points(inp: Seq<char>, ts: Seq<TokenV>, p: int)
    requires
        1 <= p <= ts.len(),
    ensures
        points_into(course_parse(inp, ts, p), ts),
{
    lemma_in(ts, p - 1);
    if p < ts.len() {
        lemma_in(ts, p);
        lemma_fields_point(inp, ts, p + 1);
        lemma_cond_string_points(inp, ts, p, NodeType::CourseQuery, "CourseQuery"@, Some(ts[p - 1]));
    }
}

proof fn lemma_section_points(inp: Seq<char>, ts: Seq<TokenV>, p: int)
    requires
        1 <= p <= ts.len(),
    ensures
        points_into(section_parse(inp, ts, p), ts),
{
    lemma_in(ts, p - 1);
    if p < ts.len() {
        lemma_in(ts, p);
        lemma_fields_point(inp, ts, p + 1);
        lemma_course_points(inp, ts, p + 1);
        if p + 2 <= ts.len() {
            lemma_fields_point(inp, ts, p + 2);
        }
    }
}

proof fn lemma_time_day_points(inp: Seq<char>, ts: Seq<TokenV>, p: int)
    requires
        1 <= p <= ts.len(),
    ensures
        points_into(time_query_parse(inp, ts, p), ts),
        points_into(day_parse(inp, ts, p), ts),
{
    lemma_in(ts, p - 1);
    if p < ts.len() {
        lemma_in(ts, p);
    }
    if p + 1 < ts.len() {
        lemma_in(ts, p + 1);
    }
    lemma_leaf_points(inp, ts, p);
    let main = ts[p - 1];
    match day_word(main.kind) {
        Some(name) => lemma_cond_string_points(inp, ts, p, NodeType::String, name, Some(main)),
        None => {},
    }
}

proof fn lemma_entity_points(inp: Seq<char>, ts: Seq<TokenV>, p: int)
    requires
        0 <= p <= ts.len(),
    ensures
        points_into(entity_parse(inp, ts, p), ts),
{
    if p < ts.len() {
        lemma_in(ts, p);
        lemma_fields_point(inp, ts, p + 1);
        if p + 2 <= ts.len() {
            lemma_fields_point(inp, ts, p + 2);
        }
        lemma_course_points(inp, ts, p + 1);
        lemma_section_points(inp, ts, p + 1);
        lemma_time_day_points(inp, ts, p + 1);
    }
}

proof fn lemma_factor_points(inp: Seq<char>, ts: Seq<TokenV>, p: int)
    requires
        0 <= p <= ts.len(),
    ensures
        points_into(factor_parse(inp, ts, p), ts),
    decreases ts.len() - p, 2int,
{
    if p < ts.len() && ts[p].kind == TokenType::Not {
        lemma_factor_points(inp, ts, p + 1);
    } else if p < ts.len() && ts[p].kind == TokenType::LeftParen {
        lemma_in(ts, p);
        lemma_query_points(inp, ts, p + 1);
    } else {
        lemma_entity_points(inp, ts, p);
    }
}

proof fn lemma_term_tail_points(inp: Seq<char>, ts: Seq<TokenV>, p: int, acc: SNode)
    requires
        0 <= p <= ts.len(),
    ensures
        points_into(term_tail_parse(inp, ts, p, acc), ts),
    decreases ts.len() - p, 1int,
{
    if p < ts.len() && ts[p].kind == TokenType::And {
        lemma_factor_points(inp, ts, p + 1);
        match factor_parse(inp, ts, p + 1) {
            Parsed::Node(g, p2) => if p + 1 < p2 <= ts.len() {
                lemma_term_tail_points(
                    inp,
                    ts,
                    p2,
                    node2(NodeType::T(TokenType::And), debug_name(TokenType::And), Some(ts[p]), acc, g),
                );
            },
            _ => {},
        }
    }
}

proof fn lemma_term_points(inp: Seq<char>, ts: Seq<TokenV>, p: int)
    requires
        0 <= p <= ts.len(),
    ensures
        points_into(term_parse(inp, ts, p), ts),
    decreases ts.len() - p, 3int,
{
    lemma_factor_points(inp, ts, p);
    match factor_parse(inp, ts, p) {
        Parsed::Node(f, p1) => if p < p1 <= ts.len() {
            lemma_term_tail_points(inp, ts, p1, f);
        },
        _ => {},
    }
}

proof fn lemma_query_tail_points(inp: Seq<char>, ts: Seq<TokenV>, p: int, acc: SNode)
    requires
        0 <= p <= ts.len(),
    ensures
        points_into(query_tail_parse(inp, ts, p, acc), ts),
        query_tail_parse(inp, ts, p, acc) matches Parsed::Node(_, q) ==> p <= q <= ts.len(),
    decreases ts.len() - p, 0int,
{
    if p < ts.len() && ts[p].kind == TokenType::Or {
        lemma_term_points(inp, ts, p + 1);
        match term_parse(inp, ts, p + 1) {
            Parsed::Node(g, p2) => if p + 1 < p2 <= ts.len() {
                lemma_query_tail_points(
                    inp,
                    ts,
                    p2,
                    node2(NodeType::T(TokenType::Or), debug_name(TokenType::Or), Some(ts[p]), acc, g),
                );
            },
            _ => {},
        }
    }
}

proof fn lemma_query_points(inp: Seq<char>, ts: Seq<TokenV>, p: int)
    requires
        0 <= p <= ts.len(),
    ensures
        points_into(query_parse(inp, ts, p), ts),
        query_parse(inp, ts, p) matches Parsed::Node(_, q) ==> p < q <= ts.len(),
    decreases ts.len() - p, 4int,
{
    lemma_term_points(inp, ts, p);
    match term_parse(inp, ts, p) {
        Parsed::Node(t, p1) => if p < p1 <= ts.len() {
            lemma_query_tail_points(inp, ts, p1, t);
        },
        _ => {},
    }
}

/// A syntax error points only at tokens of the query: every token it
/// reports is one of the tokens parsed.
pub proof fn lemma_syntax_errors_point_into_query(inp: Seq<char>, ts: Seq<TokenV>)
    ensures
        points_into(parse_outcome(inp, ts), ts),
{
    if ts.len() > 0 {
        lemma_query_points(inp, ts, 0);
        match query_parse(inp, ts, 0) {
            Parsed::Node(_, p1) => if 0 <= p1 < ts.len() {
                lemma_in(ts, p1);
            },
            _ => {},
        }
    }
}

/// Each keyword that opens an entity query gives the query of its own
/// field: a successful parse at `p` is an entity query holding one node
/// whose type is the one the keyword at `p` names (`method` an
/// instruction-method query, `campus` a campus query, `prereqs` a
/// prerequisites query, a day name a day query, and so on).
pub proof fn lemma_entity_keyword_field(inp: Seq<char>, ts: Seq<TokenV>, p: int)
    requires
        0 <= p < ts.len(),
    ensures
        entity_parse(inp, ts, p) matches Parsed::Node(n, _) ==> {
            let k = ts[p].kind;
            let f = n.children[0].node_type;
            &&& n.node_type == NodeType::EntityQuery
            &&& n.children.len() == 1
            &&& k == TokenType::Prof ==> f == NodeType::ProfessorQuery
            &&& k == TokenType::Subject ==> f == NodeType::SubjectQuery
            &&& k == TokenType::Title ==> f == NodeType::TitleQuery
            &&& k == TokenType::Number ==> f == NodeType::NumberQuery
            &&& k == TokenType::Description ==> f == NodeType::DescriptionQuery
            &&& k == TokenType::Prereqs ==> f == NodeType::PrereqsQuery
            &&& k == TokenType::Corereqs ==> f == NodeType::CoreqsQuery
            &&& k == TokenType::Full ==> f == NodeType::FullQuery
            &&& k == TokenType::Method ==> f == NodeType::InstructionMethodQuery
            &&& k == TokenType::Campus ==> f == NodeType::CampusQuery
            &&& k == TokenType::Credit ==> f == NodeType::CreditHoursQuery
            &&& k == TokenType::Size ==> f == NodeType::EnrollmentQuery
            &&& k == TokenType::Cap ==> f == NodeType::EnrollmentCapQuery
            &&& (k == TokenType::Type || k == TokenType::Meeting) ==> f == NodeType::MeetingTypeQuery
            &&& (k == TokenType::Time || k == TokenType::Start || k == TokenType::End) ==> f
                == NodeType::TimeQuery
            &&& (k == TokenType::Monday || k == TokenType::Tuesday || k == TokenType::Wednesday
                || k == TokenType::Thursday || k == TokenType::Friday || k == TokenType::Saturday
                || k == TokenType::Sunday) ==> f == NodeType::DayQuery
            &&& k == TokenType::Course ==> f == NodeType::CourseQuery
            &&& k == TokenType::Section ==> f == NodeType::SectionQuery
        },
{
}

} // verus!
