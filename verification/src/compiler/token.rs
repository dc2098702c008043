//! Token kinds of the keyword front end of the query language, and the tokens its
//! lexer produces (which carry their own text).
use vstd::prelude::*;
use vstd::string::*;
use crate::dsl::token::is_word_pattern;
use crate::text::join;

verus! {

/// Token kinds.
#[derive(Clone, Copy, PartialEq, Eq, Structural, Debug)]
pub enum TokenType {
    Term,
    Prof,
    Course,
    Subject,
    Contains,
    Title,
    Method,
    Campus,
    Credit,
    Hours,
    Prereqs,
    Corereqs,
    Email,
    Section,
    Number,
    Description,
    Enrollment,
    Cap,
    Size,
    Instruction,
    Meeting,
    Type,
    Full,
    Start,
    End,
    Monday,
    Tuesday,
    Wednesday,
    Thursday,
    Friday,
    Saturday,
    Sunday,
    Equals,
    NotEquals,
    LessThan,
    GreaterThan,
    LessEqual,
    GreaterEqual,
    And,
    Or,
    Not,
    Has,
    Is,
    Starts,
    With,
    Ends,
    Does,
    Equal,
    EqualsWord,
    Less,
    Than,
    Greater,
    At,
    Least,
    Most,
    More,
    Fewer,
    To,
    LeftParen,
    RightParen,
    String,
    Integer,
    Time,
    Identifier,
    Exclamation,
    Unrecognized,
}

/// The name of a token kind as written in source (its `Debug` form).
pub open spec fn debug_name(t: TokenType) -> Seq<char> {
    match t {
        TokenType::Term => "Term"@,
        TokenType::Prof => "Prof"@,
        TokenType::Course => "Course"@,
        TokenType::Subject => "Subject"@,
        TokenType::Contains => "Contains"@,
        TokenType::Title => "Title"@,
        TokenType::Method => "Method"@,
        TokenType::Campus => "Campus"@,
        TokenType::Credit => "Credit"@,
        TokenType::Hours => "Hours"@,
        TokenType::Prereqs => "Prereqs"@,
        TokenType::Corereqs => "Corereqs"@,
        TokenType::Email => "Email"@,
        TokenType::Section => "Section"@,
        TokenType::Number => "Number"@,
        TokenType::Description => "Description"@,
        TokenType::Enrollment => "Enrollment"@,
        TokenType::Cap => "Cap"@,
        TokenType::Size => "Size"@,
        TokenType::Instruction => "Instruction"@,
        TokenType::Meeting => "Meeting"@,
        TokenType::Type => "Type"@,
        TokenType::Full => "Full"@,
        TokenType::Start => "Start"@,
        TokenType::End => "End"@,
        TokenType::Monday => "Monday"@,
        TokenType::Tuesday => "Tuesday"@,
        TokenType::Wednesday => "Wednesday"@,
        TokenType::Thursday => "Thursday"@,
        TokenType::Friday => "Friday"@,
        TokenType::Saturday => "Saturday"@,
        TokenType::Sunday => "Sunday"@,
        TokenType::Equals => "Equals"@,
        TokenType::NotEquals => "NotEquals"@,
        TokenType::LessThan => "LessThan"@,
        TokenType::GreaterThan => "GreaterThan"@,
        TokenType::LessEqual => "LessEqual"@,
        TokenType::GreaterEqual => "GreaterEqual"@,
        TokenType::And => "And"@,
        TokenType::Or => "Or"@,
        TokenType::Not => "Not"@,
        TokenType::Has => "Has"@,
        TokenType::Is => "Is"@,
        TokenType::Starts => "Starts"@,
        TokenType::With => "With"@,
        TokenType::Ends => "Ends"@,
        TokenType::Does => "Does"@,
        TokenType::Equal => "Equal"@,
        TokenType::EqualsWord => "EqualsWord"@,
        TokenType::Less => "Less"@,
        TokenType::Than => "Than"@,
        TokenType::Greater => "Greater"@,
        TokenType::At => "At"@,
        TokenType::Least => "Least"@,
        TokenType::Most => "Most"@,
        TokenType::More => "More"@,
        TokenType::Fewer => "Fewer"@,
        TokenType::To => "To"@,
        TokenType::LeftParen => "LeftParen"@,
        TokenType::RightParen => "RightParen"@,
        TokenType::String => "String"@,
        TokenType::Integer => "Integer"@,
        TokenType::Time => "Time"@,
        TokenType::Identifier => "Identifier"@,
        TokenType::Exclamation => "Exclamation"@,
        TokenType::Unrecognized => "Unrecognized"@,
    }
}

/// The display form of a token kind: `T_` and its name in capitals.
pub open spec fn display_name(t: TokenType) -> Seq<char> {
    match t {
        TokenType::Term => "T_TERM"@,
        TokenType::Prof => "T_PROF"@,
        TokenType::Course => "T_COURSE"@,
        TokenType::Subject => "T_SUBJECT"@,
        TokenType::Contains => "T_CONTAINS"@,
        TokenType::Title => "T_TITLE"@,
        TokenType::Method => "T_METHOD"@,
        TokenType::Campus => "T_CAMPUS"@,
        TokenType::Credit => "T_CREDIT"@,
        TokenType::Hours => "T_HOURS"@,
        TokenType::Prereqs => "T_PREREQS"@,
        TokenType::Corereqs => "T_COREREQS"@,
        TokenType::Email => "T_EMAIL"@,
        TokenType::Section => "T_SECTION"@,
        TokenType::Number => "T_NUMBER"@,
        TokenType::Description => "T_DESCRIPTION"@,
        TokenType::Enrollment => "T_ENROLLMENT"@,
        TokenType::Cap => "T_CAP"@,
        TokenType::Size => "T_SIZE"@,
        TokenType::Instruction => "T_INSTRUCTION"@,
        TokenType::Meeting => "T_MEETING"@,
        TokenType::Type => "T_TYPE"@,
        TokenType::Full => "T_FULL"@,
        TokenType::Start => "T_START"@,
        TokenType::End => "T_END"@,
        TokenType::Monday => "T_MONDAY"@,
        TokenType::Tuesday => "T_TUESDAY"@,
        TokenType::Wednesday => "T_WEDNESDAY"@,
        TokenType::Thursday => "T_THURSDAY"@,
        TokenType::Friday => "T_FRIDAY"@,
        TokenType::Saturday => "T_SATURDAY"@,
        TokenType::Sunday => "T_SUNDAY"@,
        TokenType::Equals => "T_EQUALS"@,
        TokenType::NotEquals => "T_NOTEQUALS"@,
        TokenType::LessThan => "T_LESSTHAN"@,
        TokenType::GreaterThan => "T_GREATERTHAN"@,
        TokenType::LessEqual => "T_LESSEQUAL"@,
        TokenType::GreaterEqual => "T_GREATEREQUAL"@,
        TokenType::And => "T_AND"@,
        TokenType::Or => "T_OR"@,
        TokenType::Not => "T_NOT"@,
        TokenType::Has => "T_HAS"@,
        TokenType::Is => "T_IS"@,
        TokenType::Starts => "T_STARTS"@,
        TokenType::With => "T_WITH"@,
        TokenType::Ends => "T_ENDS"@,
        TokenType::Does => "T_DOES"@,
        TokenType::Equal => "T_EQUAL"@,
        TokenType::EqualsWord => "T_EQUALSWORD"@,
        TokenType::Less => "T_LESS"@,
        TokenType::Than => "T_THAN"@,
        TokenType::Greater => "T_GREATER"@,
        TokenType::At => "T_AT"@,
        TokenType::Least => "T_LEAST"@,
        TokenType::Most => "T_MOST"@,
        TokenType::More => "T_MORE"@,
        TokenType::Fewer => "T_FEWER"@,
        TokenType::To => "T_TO"@,
        TokenType::LeftParen => "T_LEFTPAREN"@,
        TokenType::RightParen => "T_RIGHTPAREN"@,
        TokenType::String => "T_STRING"@,
        TokenType::Integer => "T_INTEGER"@,
        TokenType::Time => "T_TIME"@,
        TokenType::Identifier => "T_IDENTIFIER"@,
        TokenType::Exclamation => "T_EXCLAMATION"@,
        TokenType::Unrecognized => "T_UNRECOGNIZED"@,
    }
}

/// The lexing patterns, in the order the lexer tries them (longest and most
/// specific first).
pub open spec fn token_patterns() -> Seq<(TokenType, Seq<char>)> {
    pattern_group_0() + pattern_group_1() + pattern_group_2() + pattern_group_3() + pattern_group_4() + pattern_group_5() + pattern_group_6()
}

/// Lexing patterns, part 1.
pub open spec fn pattern_group_0() -> Seq<(TokenType, Seq<char>)> {
    Seq::empty()
        .push((TokenType::EqualsWord, r"(?i)\bequals\b"@))
        .push((TokenType::Starts, r"(?i)\bstarts\b"@))
        .push((TokenType::With, r"(?i)\bwith\b"@))
        .push((TokenType::Ends, r"(?i)\bends\b"@))
        .push((TokenType::Does, r"(?i)\bdoes\b"@))
        .push((TokenType::Equal, r"(?i)\bequal\b"@))
        .push((TokenType::Less, r"(?i)\bless\b"@))
        .push((TokenType::Than, r"(?i)\bthan\b"@))
        .push((TokenType::Greater, r"(?i)\bgreater\b"@))
        .push((TokenType::At, r"(?i)\bat\b"@))
}

/// Lexing patterns, part 2.
pub open spec fn pattern_group_1() -> Seq<(TokenType, Seq<char>)> {
    Seq::empty()
        .push((TokenType::Least, r"(?i)\bleast\b"@))
        .push((TokenType::Most, r"(?i)\bmost\b"@))
        .push((TokenType::More, r"(?i)\bmore\b"@))
        .push((TokenType::Fewer, r"(?i)\bfewer\b"@))
        .push((TokenType::To, r"(?i)\bto\b"@))
        .push((TokenType::Wednesday, r"(?i)\b(wednesday|wednesda|wednesd|wednes|wedne|wedn|wed|we|w)\b"@))
        .push((TokenType::Thursday, r"(?i)\b(thursday|thursda|thurs|thur|thu|th)\b"@))
        .push((TokenType::Saturday, r"(?i)\b(saturday|saturda|saturd|satur|satu|sat|sa)\b"@))
        .push((TokenType::Tuesday, r"(?i)\b(tuesday|tuesda|tuesd|tues|tue|tu)\b"@))
        .push((TokenType::Monday, r"(?i)\b(monday|monda|mond|mon|mo|m)\b"@))
}

/// Lexing patterns, part 3.
pub open spec fn pattern_group_2() -> Seq<(TokenType, Seq<char>)> {
    Seq::empty()
        .push((TokenType::Friday, r"(?i)\b(friday|frida|frid|fri|fr|f)\b"@))
        .push((TokenType::Sunday, r"(?i)\b(sunday|sunda|sund|sun|su)\b"@))
        .push((TokenType::Contains, r"(?i)\bcontains\b"@))
        .push((TokenType::Prereqs, r"(?i)\bprereqs\b"@))
        .push((TokenType::Corereqs, r"(?i)\bcorereqs\b"@))
        .push((TokenType::Subject, r"(?i)\b(subject|sub)\b"@))
        .push((TokenType::Course, r"(?i)\bcourse\b"@))
        .push((TokenType::Method, r"(?i)\bmethod\b"@))
        .push((TokenType::Campus, r"(?i)\bcampus\b"@))
        .push((TokenType::Credit, r"(?i)\bcredit\b"@))
}

/// Lexing patterns, part 4.
pub open spec fn pattern_group_3() -> Seq<(TokenType, Seq<char>)> {
    Seq::empty()
        .push((TokenType::Hours, r"(?i)\bhours\b"@))
        .push((TokenType::Title, r"(?i)\btitle\b"@))
        .push((TokenType::Term, r"(?i)\bterm\b"@))
        .push((TokenType::Prof, r"(?i)\bprof\b"@))
        .push((TokenType::Section, r"(?i)\bsection\b"@))
        .push((TokenType::Number, r"(?i)\bnumber\b"@))
        .push((TokenType::Description, r"(?i)\bdescription\b"@))
        .push((TokenType::Enrollment, r"(?i)\benrollment\b"@))
        .push((TokenType::Cap, r"(?i)\bcap\b"@))
        .push((TokenType::Size, r"(?i)\bsize\b"@))
}

/// Lexing patterns, part 5.
pub open spec fn pattern_group_4() -> Seq<(TokenType, Seq<char>)> {
    Seq::empty()
        .push((TokenType::Instruction, r"(?i)\binstruction\b"@))
        .push((TokenType::Meeting, r"(?i)\bmeeting\b"@))
        .push((TokenType::Type, r"(?i)\btype\b"@))
        .push((TokenType::Full, r"(?i)\bfull\b"@))
        .push((TokenType::Start, r"(?i)\bstart\b"@))
        .push((TokenType::End, r"(?i)\bend\b"@))
        .push((TokenType::Email, r"(?i)\bemail\b"@))
        .push((TokenType::And, r"(?i)\band\b"@))
        .push((TokenType::Or, r"(?i)\bor\b"@))
        .push((TokenType::Not, r"(?i)\bnot\b"@))
}

/// Lexing patterns, part 6.
pub open spec fn pattern_group_5() -> Seq<(TokenType, Seq<char>)> {
    Seq::empty()
        .push((TokenType::Has, r"(?i)\bhas\b"@))
        .push((TokenType::Is, r"(?i)\bis\b"@))
        .push((TokenType::NotEquals, r"!="@))
        .push((TokenType::LessEqual, r"<="@))
        .push((TokenType::GreaterEqual, r">="@))
        .push((TokenType::Equals, r"="@))
        .push((TokenType::LessThan, r"<"@))
        .push((TokenType::GreaterThan, r">"@))
        .push((TokenType::Exclamation, r"!"@))
        .push((TokenType::LeftParen, r"\("@))
}

/// Lexing patterns, part 7.
pub open spec fn pattern_group_6() -> Seq<(TokenType, Seq<char>)> {
    Seq::empty()
        .push((TokenType::RightParen, r"\)"@))
        .push((TokenType::String, r#""[^"]*"?"#@))
        .push((TokenType::Time, r"[0-9]+:[0-9]+\s(?:am|pm)|[0-9]+:[0-9]+(?:am|pm)|[0-9]+:[0-9]+|[0-9]+\s(?:am|pm)|[0-9]+(?:am|pm)"@))
        .push((TokenType::Integer, r"[0-9]+"@))
        .push((TokenType::Identifier, r"[a-zA-Z_][a-zA-Z0-9_]*"@))
        .push((TokenType::Unrecognized, r"[^\s]"@))
}

/// The patterns of a vector of (kind, pattern) pairs, by their views.
pub open spec fn pattern_view(v: Seq<(TokenType, &str)>) -> Seq<(TokenType, Seq<char>)> {
    Seq::new(v.len(), |i: int| (v[i].0, v[i].1@))
}

fn add_pattern(v: &mut Vec<(TokenType, &'static str)>, t: TokenType, p: &'static str)
    ensures
        pattern_view(final(v)@) == pattern_view(old(v)@).push((t, p@)),
{
    v.push((t, p));
    assert(pattern_view(v@) =~= pattern_view(old(v)@).push((t, p@)));
}

fn add_pattern_group_0(v: &mut Vec<(TokenType, &'static str)>)
    ensures
        pattern_view(final(v)@) == pattern_view(old(v)@) + pattern_group_0(),
{
    let ghost start = pattern_view(v@);
    add_pattern(v, TokenType::EqualsWord, r"(?i)\bequals\b");
    add_pattern(v, TokenType::Starts, r"(?i)\bstarts\b");
    add_pattern(v, TokenType::With, r"(?i)\bwith\b");
    add_pattern(v, TokenType::Ends, r"(?i)\bends\b");
    add_pattern(v, TokenType::Does, r"(?i)\bdoes\b");
    add_pattern(v, TokenType::Equal, r"(?i)\bequal\b");
    add_pattern(v, TokenType::Less, r"(?i)\bless\b");
    add_pattern(v, TokenType::Than, r"(?i)\bthan\b");
    add_pattern(v, TokenType::Greater, r"(?i)\bgreater\b");
    add_pattern(v, TokenType::At, r"(?i)\bat\b");
    assert(pattern_view(v@) =~= start + pattern_group_0());
}

fn add_pattern_group_1(v: &mut Vec<(TokenType, &'static str)>)
    ensures
        pattern_view(final(v)@) == pattern_view(old(v)@) + pattern_group_1(),
{
    let ghost start = pattern_view(v@);
    add_pattern(v, TokenType::Least, r"(?i)\bleast\b");
    add_pattern(v, TokenType::Most, r"(?i)\bmost\b");
    add_pattern(v, TokenType::More, r"(?i)\bmore\b");
    add_pattern(v, TokenType::Fewer, r"(?i)\bfewer\b");
    add_pattern(v, TokenType::To, r"(?i)\bto\b");
    add_pattern(v, TokenType::Wednesday, r"(?i)\b(wednesday|wednesda|wednesd|wednes|wedne|wedn|wed|we|w)\b");
    add_pattern(v, TokenType::Thursday, r"(?i)\b(thursday|thursda|thurs|thur|thu|th)\b");
    add_pattern(v, TokenType::Saturday, r"(?i)\b(saturday|saturda|saturd|satur|satu|sat|sa)\b");
    add_pattern(v, TokenType::Tuesday, r"(?i)\b(tuesday|tuesda|tuesd|tues|tue|tu)\b");
    add_pattern(v, TokenType::Monday, r"(?i)\b(monday|monda|mond|mon|mo|m)\b");
    assert(pattern_view(v@) =~= start + pattern_group_1());
}

fn add_pattern_group_2(v: &mut Vec<(TokenType, &'static str)>)
    ensures
        pattern_view(final(v)@) == pattern_view(old(v)@) + pattern_group_2(),
{
    let ghost start = pattern_view(v@);
    add_pattern(v, TokenType::Friday, r"(?i)\b(friday|frida|frid|fri|fr|f)\b");
    add_pattern(v, TokenType::Sunday, r"(?i)\b(sunday|sunda|sund|sun|su)\b");
    add_pattern(v, TokenType::Contains, r"(?i)\bcontains\b");
    add_pattern(v, TokenType::Prereqs, r"(?i)\bprereqs\b");
    add_pattern(v, TokenType::Corereqs, r"(?i)\bcorereqs\b");
    add_pattern(v, TokenType::Subject, r"(?i)\b(subject|sub)\b");
    add_pattern(v, TokenType::Course, r"(?i)\bcourse\b");
    add_pattern(v, TokenType::Method, r"(?i)\bmethod\b");
    add_pattern(v, TokenType::Campus, r"(?i)\bcampus\b");
    add_pattern(v, TokenType::Credit, r"(?i)\bcredit\b");
    assert(pattern_view(v@) =~= start + pattern_group_2());
}

fn add_pattern_group_3(v: &mut Vec<(TokenType, &'static str)>)
    ensures
        pattern_view(final(v)@) == pattern_view(old(v)@) + pattern_group_3(),
{
    let ghost start = pattern_view(v@);
    add_pattern(v, TokenType::Hours, r"(?i)\bhours\b");
    add_pattern(v, TokenType::Title, r"(?i)\btitle\b");
    add_pattern(v, TokenType::Term, r"(?i)\bterm\b");
    add_pattern(v, TokenType::Prof, r"(?i)\bprof\b");
    add_pattern(v, TokenType::Section, r"(?i)\bsection\b");
    add_pattern(v, TokenType::Number, r"(?i)\bnumber\b");
    add_pattern(v, TokenType::Description, r"(?i)\bdescription\b");
    add_pattern(v, TokenType::Enrollment, r"(?i)\benrollment\b");
    add_pattern(v, TokenType::Cap, r"(?i)\bcap\b");
    add_pattern(v, TokenType::Size, r"(?i)\bsize\b");
    assert(pattern_view(v@) =~= start + pattern_group_3());
}

fn add_pattern_group_4(v: &mut Vec<(TokenType, &'static str)>)
    ensures
        pattern_view(final(v)@) == pattern_view(old(v)@) + pattern_group_4(),
{
    let ghost start = pattern_view(v@);
    add_pattern(v, TokenType::Instruction, r"(?i)\binstruction\b");
    add_pattern(v, TokenType::Meeting, r"(?i)\bmeeting\b");
    add_pattern(v, TokenType::Type, r"(?i)\btype\b");
    add_pattern(v, TokenType::Full, r"(?i)\bfull\b");
    add_pattern(v, TokenType::Start, r"(?i)\bstart\b");
    add_pattern(v, TokenType::End, r"(?i)\bend\b");
    add_pattern(v, TokenType::Email, r"(?i)\bemail\b");
    add_pattern(v, TokenType::And, r"(?i)\band\b");
    add_pattern(v, TokenType::Or, r"(?i)\bor\b");
    add_pattern(v, TokenType::Not, r"(?i)\bnot\b");
    assert(pattern_view(v@) =~= start + pattern_group_4());
}

fn add_pattern_group_5(v: &mut Vec<(TokenType, &'static str)>)
    ensures
        pattern_view(final(v)@) == pattern_view(old(v)@) + pattern_group_5(),
{
    let ghost start = pattern_view(v@);
    add_pattern(v, TokenType::Has, r"(?i)\bhas\b");
    add_pattern(v, TokenType::Is, r"(?i)\bis\b");
    add_pattern(v, TokenType::NotEquals, r"!=");
    add_pattern(v, TokenType::LessEqual, r"<=");
    add_pattern(v, TokenType::GreaterEqual, r">=");
    add_pattern(v, TokenType::Equals, r"=");
    add_pattern(v, TokenType::LessThan, r"<");
    add_pattern(v, TokenType::GreaterThan, r">");
    add_pattern(v, TokenType::Exclamation, r"!");
    add_pattern(v, TokenType::LeftParen, r"\(");
    assert(pattern_view(v@) =~= start + pattern_group_5());
}

fn add_pattern_group_6(v: &mut Vec<(TokenType, &'static str)>)
    ensures
        pattern_view(final(v)@) == pattern_view(old(v)@) + pattern_group_6(),
{
    let ghost start = pattern_view(v@);
    add_pattern(v, TokenType::RightParen, r"\)");
    add_pattern(v, TokenType::String, r#""[^"]*"?"#);
    add_pattern(v, TokenType::Time, r"[0-9]+:[0-9]+\s(?:am|pm)|[0-9]+:[0-9]+(?:am|pm)|[0-9]+:[0-9]+|[0-9]+\s(?:am|pm)|[0-9]+(?:am|pm)");
    add_pattern(v, TokenType::Integer, r"[0-9]+");
    add_pattern(v, TokenType::Identifier, r"[a-zA-Z_][a-zA-Z0-9_]*");
    add_pattern(v, TokenType::Unrecognized, r"[^\s]");
    assert(pattern_view(v@) =~= start + pattern_group_6());
}

impl TokenType {
    /// The display form of the token kind (`T_` and its name in capitals).
    pub fn to_string(&self) -> (r: String)
        ensures
            r@ == display_name(*self),
    {
        match self {
            TokenType::Term => "T_TERM".to_string(),
            TokenType::Prof => "T_PROF".to_string(),
            TokenType::Course => "T_COURSE".to_string(),
            TokenType::Subject => "T_SUBJECT".to_string(),
            TokenType::Contains => "T_CONTAINS".to_string(),
            TokenType::Title => "T_TITLE".to_string(),
            TokenType::Method => "T_METHOD".to_string(),
            TokenType::Campus => "T_CAMPUS".to_string(),
            TokenType::Credit => "T_CREDIT".to_string(),
            TokenType::Hours => "T_HOURS".to_string(),
            TokenType::Prereqs => "T_PREREQS".to_string(),
            TokenType::Corereqs => "T_COREREQS".to_string(),
            TokenType::Email => "T_EMAIL".to_string(),
            TokenType::Section => "T_SECTION".to_string(),
            TokenType::Number => "T_NUMBER".to_string(),
            TokenType::Description => "T_DESCRIPTION".to_string(),
            TokenType::Enrollment => "T_ENROLLMENT".to_string(),
            TokenType::Cap => "T_CAP".to_string(),
            TokenType::Size => "T_SIZE".to_string(),
            TokenType::Instruction => "T_INSTRUCTION".to_string(),
            TokenType::Meeting => "T_MEETING".to_string(),
            TokenType::Type => "T_TYPE".to_string(),
            TokenType::Full => "T_FULL".to_string(),
            TokenType::Start => "T_START".to_string(),
            TokenType::End => "T_END".to_string(),
            TokenType::Monday => "T_MONDAY".to_string(),
            TokenType::Tuesday => "T_TUESDAY".to_string(),
            TokenType::Wednesday => "T_WEDNESDAY".to_string(),
            TokenType::Thursday => "T_THURSDAY".to_string(),
            TokenType::Friday => "T_FRIDAY".to_string(),
            TokenType::Saturday => "T_SATURDAY".to_string(),
            TokenType::Sunday => "T_SUNDAY".to_string(),
            TokenType::Equals => "T_EQUALS".to_string(),
            TokenType::NotEquals => "T_NOTEQUALS".to_string(),
            TokenType::LessThan => "T_LESSTHAN".to_string(),
            TokenType::GreaterThan => "T_GREATERTHAN".to_string(),
            TokenType::LessEqual => "T_LESSEQUAL".to_string(),
            TokenType::GreaterEqual => "T_GREATEREQUAL".to_string(),
            TokenType::And => "T_AND".to_string(),
            TokenType::Or => "T_OR".to_string(),
            TokenType::Not => "T_NOT".to_string(),
            TokenType::Has => "T_HAS".to_string(),
            TokenType::Is => "T_IS".to_string(),
            TokenType::Starts => "T_STARTS".to_string(),
            TokenType::With => "T_WITH".to_string(),
            TokenType::Ends => "T_ENDS".to_string(),
            TokenType::Does => "T_DOES".to_string(),
            TokenType::Equal => "T_EQUAL".to_string(),
            TokenType::EqualsWord => "T_EQUALSWORD".to_string(),
            TokenType::Less => "T_LESS".to_string(),
            TokenType::Than => "T_THAN".to_string(),
            TokenType::Greater => "T_GREATER".to_string(),
            TokenType::At => "T_AT".to_string(),
            TokenType::Least => "T_LEAST".to_string(),
            TokenType::Most => "T_MOST".to_string(),
            TokenType::More => "T_MORE".to_string(),
            TokenType::Fewer => "T_FEWER".to_string(),
            TokenType::To => "T_TO".to_string(),
            TokenType::LeftParen => "T_LEFTPAREN".to_string(),
            TokenType::RightParen => "T_RIGHTPAREN".to_string(),
            TokenType::String => "T_STRING".to_string(),
            TokenType::Integer => "T_INTEGER".to_string(),
            TokenType::Time => "T_TIME".to_string(),
            TokenType::Identifier => "T_IDENTIFIER".to_string(),
            TokenType::Exclamation => "T_EXCLAMATION".to_string(),
            TokenType::Unrecognized => "T_UNRECOGNIZED".to_string(),
        }
    }

    /// The name of the token kind as written in source (its `Debug` form).
    pub fn debug_string(&self) -> (r: String)
        ensures
            r@ == debug_name(*self),
    {
        match self {
            TokenType::Term => "Term".to_string(),
            TokenType::Prof => "Prof".to_string(),
            TokenType::Course => "Course".to_string(),
            TokenType::Subject => "Subject".to_string(),
            TokenType::Contains => "Contains".to_string(),
            TokenType::Title => "Title".to_string(),
            TokenType::Method => "Method".to_string(),
            TokenType::Campus => "Campus".to_string(),
            TokenType::Credit => "Credit".to_string(),
            TokenType::Hours => "Hours".to_string(),
            TokenType::Prereqs => "Prereqs".to_string(),
            TokenType::Corereqs => "Corereqs".to_string(),
            TokenType::Email => "Email".to_string(),
            TokenType::Section => "Section".to_string(),
            TokenType::Number => "Number".to_string(),
            TokenType::Description => "Description".to_string(),
            TokenType::Enrollment => "Enrollment".to_string(),
            TokenType::Cap => "Cap".to_string(),
            TokenType::Size => "Size".to_string(),
            TokenType::Instruction => "Instruction".to_string(),
            TokenType::Meeting => "Meeting".to_string(),
            TokenType::Type => "Type".to_string(),
            TokenType::Full => "Full".to_string(),
            TokenType::Start => "Start".to_string(),
            TokenType::End => "End".to_string(),
            TokenType::Monday => "Monday".to_string(),
            TokenType::Tuesday => "Tuesday".to_string(),
            TokenType::Wednesday => "Wednesday".to_string(),
            TokenType::Thursday => "Thursday".to_string(),
            TokenType::Friday => "Friday".to_string(),
            TokenType::Saturday => "Saturday".to_string(),
            TokenType::Sunday => "Sunday".to_string(),
            TokenType::Equals => "Equals".to_string(),
            TokenType::NotEquals => "NotEquals".to_string(),
            TokenType::LessThan => "LessThan".to_string(),
            TokenType::GreaterThan => "GreaterThan".to_string(),
            TokenType::LessEqual => "LessEqual".to_string(),
            TokenType::GreaterEqual => "GreaterEqual".to_string(),
            TokenType::And => "And".to_string(),
            TokenType::Or => "Or".to_string(),
            TokenType::Not => "Not".to_string(),
            TokenType::Has => "Has".to_string(),
            TokenType::Is => "Is".to_string(),
            TokenType::Starts => "Starts".to_string(),
            TokenType::With => "With".to_string(),
            TokenType::Ends => "Ends".to_string(),
            TokenType::Does => "Does".to_string(),
            TokenType::Equal => "Equal".to_string(),
            TokenType::EqualsWord => "EqualsWord".to_string(),
            TokenType::Less => "Less".to_string(),
            TokenType::Than => "Than".to_string(),
            TokenType::Greater => "Greater".to_string(),
            TokenType::At => "At".to_string(),
            TokenType::Least => "Least".to_string(),
            TokenType::Most => "Most".to_string(),
            TokenType::More => "More".to_string(),
            TokenType::Fewer => "Fewer".to_string(),
            TokenType::To => "To".to_string(),
            TokenType::LeftParen => "LeftParen".to_string(),
            TokenType::RightParen => "RightParen".to_string(),
            TokenType::String => "String".to_string(),
            TokenType::Integer => "Integer".to_string(),
            TokenType::Time => "Time".to_string(),
            TokenType::Identifier => "Identifier".to_string(),
            TokenType::Exclamation => "Exclamation".to_string(),
            TokenType::Unrecognized => "Unrecognized".to_string(),
        }
    }

    /// All token patterns in lexing order (longest/most specific first).
    pub fn all_patterns() -> (r: Vec<(TokenType, &'static str)>)
        ensures
            pattern_view(r@) == token_patterns(),
    {
        let mut v: Vec<(TokenType, &'static str)> = Vec::new();
        assert(pattern_view(v@) =~= Seq::<(TokenType, Seq<char>)>::empty());
        add_pattern_group_0(&mut v);
        add_pattern_group_1(&mut v);
        add_pattern_group_2(&mut v);
        add_pattern_group_3(&mut v);
        add_pattern_group_4(&mut v);
        add_pattern_group_5(&mut v);
        add_pattern_group_6(&mut v);
        assert(pattern_view(v@) =~= token_patterns());
        v
    }
}

/// A token: its kind, its text, and the byte offsets `[start, end)` of the
/// text in the input.
#[derive(Clone, Debug)]
pub struct Token {
    token_type: TokenType,
    lexeme: String,
    start: i32,
    end: i32,
}

/// The mathematical value of a token.
pub ghost struct TokenV {
    pub kind: TokenType,
    pub lexeme: Seq<char>,
    pub start: i32,
    pub end: i32,
}

impl View for Token {
    type V = TokenV;

    closed spec fn view(&self) -> TokenV {
        TokenV { kind: self.token_type, lexeme: self.lexeme@, start: self.start, end: self.end }
    }
}

/// The values of a sequence of tokens.
pub open spec fn tokens_view(ts: Seq<Token>) -> Seq<TokenV> {
    Seq::new(ts.len(), |i: int| ts[i]@)
}

impl Token {
    /// Creates a token.
    pub fn new(token_type: TokenType, lexeme: String, start: i32, end: i32) -> (r: Token)
        ensures
            r@ == (TokenV { kind: token_type, lexeme: lexeme@, start, end }),
    {
        Token { token_type, lexeme, start, end }
    }

    /// The token's text.
    pub fn get_lexeme(&self) -> (r: &str)
        ensures
            r@ == self@.lexeme,
    {
        self.lexeme.as_str()
    }

    /// The kind of the token.
    pub fn get_token_type(&self) -> (r: &TokenType)
        ensures
            *r == self@.kind,
    {
        &self.token_type
    }

    /// The byte offset where the token's text starts.
    pub fn get_start(&self) -> (r: i32)
        ensures
            r == self@.start,
    {
        self.start
    }

    /// The byte offset where the token's text ends.
    pub fn get_end(&self) -> (r: i32)
        ensures
            r == self@.end,
    {
        self.end
    }

    /// A copy of the token.
    pub fn duplicate(&self) -> (r: Token)
        ensures
            r@ == self@,
    {
        Token { token_type: self.token_type, lexeme: self.lexeme.clone(), start: self.start, end: self.end }
    }
}

/// No identifier pattern comes at or before position `k` of the table, so
/// a pattern there is tried before a word can be read as an identifier.
pub open spec fn before_identifier(k: int) -> bool {
    forall|j: int| 0 <= j <= k ==> (#[trigger] token_patterns()[j]).0 != TokenType::Identifier
}

/// The lexer reads each of `words`, in any case, as a token of `kind`: the
/// table holds, before any identifier pattern, a pattern of that kind that
/// matches exactly these words.
pub open spec fn keyword_read_as(kind: TokenType, words: Seq<Seq<char>>) -> bool {
    exists|k: int|
        #![trigger token_patterns()[k]]
        0 <= k < token_patterns().len() && token_patterns()[k].0 == kind && is_word_pattern(
            token_patterns()[k].1,
            words,
        ) && before_identifier(k)
}

proof fn lemma_group_no_identifier(g: Seq<(TokenType, Seq<char>)>, n: int)
    requires
        0 <= n <= g.len(),
        n <= 10,
        n > 0 ==> g[0].0 != TokenType::Identifier,
        n > 1 ==> g[1].0 != TokenType::Identifier,
        n > 2 ==> g[2].0 != TokenType::Identifier,
        n > 3 ==> g[3].0 != TokenType::Identifier,
        n > 4 ==> g[4].0 != TokenType::Identifier,
        n > 5 ==> g[5].0 != TokenType::Identifier,
        n > 6 ==> g[6].0 != TokenType::Identifier,
        n > 7 ==> g[7].0 != TokenType::Identifier,
        n > 8 ==> g[8].0 != TokenType::Identifier,
        n > 9 ==> g[9].0 != TokenType::Identifier,
    ensures
        forall|j: int| 0 <= j < n ==> (#[trigger] g[j]).0 != TokenType::Identifier,
{
    assert forall|j: int| 0 <= j < n implies (#[trigger] g[j]).0 != TokenType::Identifier by {
        assert(j == 0 || j == 1 || j == 2 || j == 3 || j == 4 || j == 5 || j == 6 || j == 7 || j == 8 || j == 9);
    }
}

proof fn lemma_identifier_late()
    ensures
        before_identifier(63),
        token_patterns()[64].0 == TokenType::Identifier,
{
    lemma_group_no_identifier(pattern_group_0(), 10);
    lemma_group_no_identifier(pattern_group_1(), 10);
    lemma_group_no_identifier(pattern_group_2(), 10);
    lemma_group_no_identifier(pattern_group_3(), 10);
    lemma_group_no_identifier(pattern_group_4(), 10);
    lemma_group_no_identifier(pattern_group_5(), 10);
    lemma_group_no_identifier(pattern_group_6(), 4);
    let all = token_patterns();
    assert forall|j: int| 0 <= j <= 63 implies (#[trigger] all[j]).0 != TokenType::Identifier by {
        if j < 10 {
            assert(all[j] == pattern_group_0()[j]);
        } else if j < 20 {
            assert(all[j] == pattern_group_1()[j - 10]);
        } else if j < 30 {
            assert(all[j] == pattern_group_2()[j - 20]);
        } else if j < 40 {
            assert(all[j] == pattern_group_3()[j - 30]);
        } else if j < 50 {
            assert(all[j] == pattern_group_4()[j - 40]);
        } else if j < 60 {
            assert(all[j] == pattern_group_5()[j - 50]);
        } else {
            assert(all[j] == pattern_group_6()[j - 60]);
        }
    }
    assert(all[64] == pattern_group_6()[4]);
}

/// The field keywords and connectives of the keyword language are read as
/// their tokens, in any case: `prereqs` as `Prereqs`, `corereqs` as
/// `Corereqs`, `subject` and `sub` as `Subject`, `prof` as `Prof`, `method`
/// as `Method`, and each other keyword as its own token.
pub proof fn lemma_keywords_read()
    ensures
        keyword_read_as(TokenType::Contains, seq!["contains"@]),
        keyword_read_as(TokenType::Prereqs, seq!["prereqs"@]),
        keyword_read_as(TokenType::Corereqs, seq!["corereqs"@]),
        keyword_read_as(TokenType::Subject, seq!["subject"@, "sub"@]),
        keyword_read_as(TokenType::Course, seq!["course"@]),
        keyword_read_as(TokenType::Method, seq!["method"@]),
        keyword_read_as(TokenType::Campus, seq!["campus"@]),
        keyword_read_as(TokenType::Credit, seq!["credit"@]),
        keyword_read_as(TokenType::Hours, seq!["hours"@]),
        keyword_read_as(TokenType::Title, seq!["title"@]),
        keyword_read_as(TokenType::Term, seq!["term"@]),
        keyword_read_as(TokenType::Prof, seq!["prof"@]),
        keyword_read_as(TokenType::Section, seq!["section"@]),
        keyword_read_as(TokenType::Number, seq!["number"@]),
        keyword_read_as(TokenType::Description, seq!["description"@]),
        keyword_read_as(TokenType::Enrollment, seq!["enrollment"@]),
        keyword_read_as(TokenType::Cap, seq!["cap"@]),
        keyword_read_as(TokenType::Size, seq!["size"@]),
        keyword_read_as(TokenType::Instruction, seq!["instruction"@]),
        keyword_read_as(TokenType::Meeting, seq!["meeting"@]),
        keyword_read_as(TokenType::Type, seq!["type"@]),
        keyword_read_as(TokenType::Full, seq!["full"@]),
        keyword_read_as(TokenType::Start, seq!["start"@]),
        keyword_read_as(TokenType::End, seq!["end"@]),
        keyword_read_as(TokenType::Email, seq!["email"@]),
        keyword_read_as(TokenType::And, seq!["and"@]),
        keyword_read_as(TokenType::Or, seq!["or"@]),
        keyword_read_as(TokenType::Not, seq!["not"@]),
        keyword_read_as(TokenType::Has, seq!["has"@]),
        keyword_read_as(TokenType::Is, seq!["is"@]),
{
    lemma_identifier_late();
    reveal_with_fuel(join, 10);
    reveal_strlit(r"(?i)\b(?:");
    reveal_strlit(r"(?i)\b(");
    reveal_strlit(r")\b");
    reveal_strlit(r"(?i)\b");
    reveal_strlit(r"\b");
    reveal_strlit("|");
    reveal_strlit(r"(?i)\bcontains\b");
    reveal_strlit("contains");
    assert(token_patterns()[22] == (TokenType::Contains, r"(?i)\bcontains\b"@));
    assert(r"(?i)\bcontains\b"@ =~= r"(?i)\b"@ + "contains"@ + r"\b"@);
    reveal_strlit(r"(?i)\bprereqs\b");
    reveal_strlit("prereqs");
    assert(token_patterns()[23] == (TokenType::Prereqs, r"(?i)\bprereqs\b"@));
    assert(r"(?i)\bprereqs\b"@ =~= r"(?i)\b"@ + "prereqs"@ + r"\b"@);
    reveal_strlit(r"(?i)\bcorereqs\b");
    reveal_strlit("corereqs");
    assert(token_patterns()[24] == (TokenType::Corereqs, r"(?i)\bcorereqs\b"@));
    assert(r"(?i)\bcorereqs\b"@ =~= r"(?i)\b"@ + "corereqs"@ + r"\b"@);
    reveal_strlit(r"(?i)\b(subject|sub)\b");
    reveal_strlit("subject");
    reveal_strlit("sub");
    assert(token_patterns()[25] == (TokenType::Subject, r"(?i)\b(subject|sub)\b"@));
    assert(r"(?i)\b(subject|sub)\b"@ =~= r"(?i)\b("@ + join(seq!["subject"@, "sub"@], "|"@) + r")\b"@);
    reveal_strlit(r"(?i)\bcourse\b");
    reveal_strlit("course");
    assert(token_patterns()[26] == (TokenType::Course, r"(?i)\bcourse\b"@));
    assert(r"(?i)\bcourse\b"@ =~= r"(?i)\b"@ + "course"@ + r"\b"@);
    reveal_strlit(r"(?i)\bmethod\b");
    reveal_strlit("method");
    assert(token_patterns()[27] == (TokenType::Method, r"(?i)\bmethod\b"@));
    assert(r"(?i)\bmethod\b"@ =~= r"(?i)\b"@ + "method"@ + r"\b"@);
    reveal_strlit(r"(?i)\bcampus\b");
    reveal_strlit("campus");
    assert(token_patterns()[28] == (TokenType::Campus, r"(?i)\bcampus\b"@));
    assert(r"(?i)\bcampus\b"@ =~= r"(?i)\b"@ + "campus"@ + r"\b"@);
    reveal_strlit(r"(?i)\bcredit\b");
    reveal_strlit("credit");
    assert(token_patterns()[29] == (TokenType::Credit, r"(?i)\bcredit\b"@));
    assert(r"(?i)\bcredit\b"@ =~= r"(?i)\b"@ + "credit"@ + r"\b"@);
    reveal_strlit(r"(?i)\bhours\b");
    reveal_strlit("hours");
    assert(token_patterns()[30] == (TokenType::Hours, r"(?i)\bhours\b"@));
    assert(r"(?i)\bhours\b"@ =~= r"(?i)\b"@ + "hours"@ + r"\b"@);
    reveal_strlit(r"(?i)\btitle\b");
    reveal_strlit("title");
    assert(token_patterns()[31] == (TokenType::Title, r"(?i)\btitle\b"@));
    assert(r"(?i)\btitle\b"@ =~= r"(?i)\b"@ + "title"@ + r"\b"@);
    reveal_strlit(r"(?i)\bterm\b");
    reveal_strlit("term");
    assert(token_patterns()[32] == (TokenType::Term, r"(?i)\bterm\b"@));
    assert(r"(?i)\bterm\b"@ =~= r"(?i)\b"@ + "term"@ + r"\b"@);
    reveal_strlit(r"(?i)\bprof\b");
    reveal_strlit("prof");
    assert(token_patterns()[33] == (TokenType::Prof, r"(?i)\bprof\b"@));
    assert(r"(?i)\bprof\b"@ =~= r"(?i)\b"@ + "prof"@ + r"\b"@);
    reveal_strlit(r"(?i)\bsection\b");
    reveal_strlit("section");
    assert(token_patterns()[34] == (TokenType::Section, r"(?i)\bsection\b"@));
    assert(r"(?i)\bsection\b"@ =~= r"(?i)\b"@ + "section"@ + r"\b"@);
    reveal_strlit(r"(?i)\bnumber\b");
    reveal_strlit("number");
    assert(token_patterns()[35] == (TokenType::Number, r"(?i)\bnumber\b"@));
    assert(r"(?i)\bnumber\b"@ =~= r"(?i)\b"@ + "number"@ + r"\b"@);
    reveal_strlit(r"(?i)\bdescription\b");
    reveal_strlit("description");
    assert(token_patterns()[36] == (TokenType::Description, r"(?i)\bdescription\b"@));
    assert(r"(?i)\bdescription\b"@ =~= r"(?i)\b"@ + "description"@ + r"\b"@);
    reveal_strlit(r"(?i)\benrollment\b");
    reveal_strlit("enrollment");
    assert(token_patterns()[37] == (TokenType::Enrollment, r"(?i)\benrollment\b"@));
    assert(r"(?i)\benrollment\b"@ =~= r"(?i)\b"@ + "enrollment"@ + r"\b"@);
    reveal_strlit(r"(?i)\bcap\b");
    reveal_strlit("cap");
    assert(token_patterns()[38] == (TokenType::Cap, r"(?i)\bcap\b"@));
    assert(r"(?i)\bcap\b"@ =~= r"(?i)\b"@ + "cap"@ + r"\b"@);
    reveal_strlit(r"(?i)\bsize\b");
    reveal_strlit("size");
    assert(token_patterns()[39] == (TokenType::Size, r"(?i)\bsize\b"@));
    assert(r"(?i)\bsize\b"@ =~= r"(?i)\b"@ + "size"@ + r"\b"@);
    reveal_strlit(r"(?i)\binstruction\b");
    reveal_strlit("instruction");
    assert(token_patterns()[40] == (TokenType::Instruction, r"(?i)\binstruction\b"@));
    assert(r"(?i)\binstruction\b"@ =~= r"(?i)\b"@ + "instruction"@ + r"\b"@);
    reveal_strlit(r"(?i)\bmeeting\b");
    reveal_strlit("meeting");
    assert(token_patterns()[41] == (TokenType::Meeting, r"(?i)\bmeeting\b"@));
    assert(r"(?i)\bmeeting\b"@ =~= r"(?i)\b"@ + "meeting"@ + r"\b"@);
    reveal_strlit(r"(?i)\btype\b");
    reveal_strlit("type");
    assert(token_patterns()[42] == (TokenType::Type, r"(?i)\btype\b"@));
    assert(r"(?i)\btype\b"@ =~= r"(?i)\b"@ + "type"@ + r"\b"@);
    reveal_strlit(r"(?i)\bfull\b");
    reveal_strlit("full");
    assert(token_patterns()[43] == (TokenType::Full, r"(?i)\bfull\b"@));
    assert(r"(?i)\bfull\b"@ =~= r"(?i)\b"@ + "full"@ + r"\b"@);
    reveal_strlit(r"(?i)\bstart\b");
    reveal_strlit("start");
    assert(token_patterns()[44] == (TokenType::Start, r"(?i)\bstart\b"@));
    assert(r"(?i)\bstart\b"@ =~= r"(?i)\b"@ + "start"@ + r"\b"@);
    reveal_strlit(r"(?i)\bend\b");
    reveal_strlit("end");
    assert(token_patterns()[45] == (TokenType::End, r"(?i)\bend\b"@));
    assert(r"(?i)\bend\b"@ =~= r"(?i)\b"@ + "end"@ + r"\b"@);
    reveal_strlit(r"(?i)\bemail\b");
    reveal_strlit("email");
    assert(token_patterns()[46] == (TokenType::Email, r"(?i)\bemail\b"@));
    assert(r"(?i)\bemail\b"@ =~= r"(?i)\b"@ + "email"@ + r"\b"@);
    reveal_strlit(r"(?i)\band\b");
    reveal_strlit("and");
    assert(token_patterns()[47] == (TokenType::And, r"(?i)\band\b"@));
    assert(r"(?i)\band\b"@ =~= r"(?i)\b"@ + "and"@ + r"\b"@);
    reveal_strlit(r"(?i)\bor\b");
    reveal_strlit("or");
    assert(token_patterns()[48] == (TokenType::Or, r"(?i)\bor\b"@));
    assert(r"(?i)\bor\b"@ =~= r"(?i)\b"@ + "or"@ + r"\b"@);
    reveal_strlit(r"(?i)\bnot\b");
    reveal_strlit("not");
    assert(token_patterns()[49] == (TokenType::Not, r"(?i)\bnot\b"@));
    assert(r"(?i)\bnot\b"@ =~= r"(?i)\b"@ + "not"@ + r"\b"@);
    reveal_strlit(r"(?i)\bhas\b");
    reveal_strlit("has");
    assert(token_patterns()[50] == (TokenType::Has, r"(?i)\bhas\b"@));
    assert(r"(?i)\bhas\b"@ =~= r"(?i)\b"@ + "has"@ + r"\b"@);
    reveal_strlit(r"(?i)\bis\b");
    reveal_strlit("is");
    assert(token_patterns()[51] == (TokenType::Is, r"(?i)\bis\b"@));
    assert(r"(?i)\bis\b"@ =~= r"(?i)\b"@ + "is"@ + r"\b"@);
}

/// The words of conditions and the day names with their abbreviations are
/// read as their tokens, in any case.
pub proof fn lemma_words_read()
    ensures
        keyword_read_as(TokenType::EqualsWord, seq!["equals"@]),
        keyword_read_as(TokenType::Starts, seq!["starts"@]),
        keyword_read_as(TokenType::With, seq!["with"@]),
        keyword_read_as(TokenType::Ends, seq!["ends"@]),
        keyword_read_as(TokenType::Does, seq!["does"@]),
        keyword_read_as(TokenType::Equal, seq!["equal"@]),
        keyword_read_as(TokenType::Less, seq!["less"@]),
        keyword_read_as(TokenType::Than, seq!["than"@]),
        keyword_read_as(TokenType::Greater, seq!["greater"@]),
        keyword_read_as(TokenType::At, seq!["at"@]),
        keyword_read_as(TokenType::Least, seq!["least"@]),
        keyword_read_as(TokenType::Most, seq!["most"@]),
        keyword_read_as(TokenType::More, seq!["more"@]),
        keyword_read_as(TokenType::Fewer, seq!["fewer"@]),
        keyword_read_as(TokenType::To, seq!["to"@]),
        keyword_read_as(TokenType::Wednesday, seq!["wednesday"@, "wednesda"@, "wednesd"@, "wednes"@, "wedne"@, "wedn"@, "wed"@, "we"@, "w"@]),
        keyword_read_as(TokenType::Thursday, seq!["thursday"@, "thursda"@, "thurs"@, "thur"@, "thu"@, "th"@]),
        keyword_read_as(TokenType::Saturday, seq!["saturday"@, "saturda"@, "saturd"@, "satur"@, "satu"@, "sat"@, "sa"@]),
        keyword_read_as(TokenType::Tuesday, seq!["tuesday"@, "tuesda"@, "tuesd"@, "tues"@, "tue"@, "tu"@]),
        keyword_read_as(TokenType::Monday, seq!["monday"@, "monda"@, "mond"@, "mon"@, "mo"@, "m"@]),
        keyword_read_as(TokenType::Friday, seq!["friday"@, "frida"@, "frid"@, "fri"@, "fr"@, "f"@]),
        keyword_read_as(TokenType::Sunday, seq!["sunday"@, "sunda"@, "sund"@, "sun"@, "su"@]),
{
    lemma_identifier_late();
    reveal_with_fuel(join, 10);
    reveal_strlit(r"(?i)\b(?:");
    reveal_strlit(r"(?i)\b(");
    reveal_strlit(r")\b");
    reveal_strlit(r"(?i)\b");
    reveal_strlit(r"\b");
    reveal_strlit("|");
    reveal_strlit(r"(?i)\bequals\b");
    reveal_strlit("equals");
    assert(token_patterns()[0] == (TokenType::EqualsWord, r"(?i)\bequals\b"@));
    assert(r"(?i)\bequals\b"@ =~= r"(?i)\b"@ + "equals"@ + r"\b"@);
    reveal_strlit(r"(?i)\bstarts\b");
    reveal_strlit("starts");
    assert(token_patterns()[1] == (TokenType::Starts, r"(?i)\bstarts\b"@));
    assert(r"(?i)\bstarts\b"@ =~= r"(?i)\b"@ + "starts"@ + r"\b"@);
    reveal_strlit(r"(?i)\bwith\b");
    reveal_strlit("with");
    assert(token_patterns()[2] == (TokenType::With, r"(?i)\bwith\b"@));
    assert(r"(?i)\bwith\b"@ =~= r"(?i)\b"@ + "with"@ + r"\b"@);
    reveal_strlit(r"(?i)\bends\b");
    reveal_strlit("ends");
    assert(token_patterns()[3] == (TokenType::Ends, r"(?i)\bends\b"@));
    assert(r"(?i)\bends\b"@ =~= r"(?i)\b"@ + "ends"@ + r"\b"@);
    reveal_strlit(r"(?i)\bdoes\b");
    reveal_strlit("does");
    assert(token_patterns()[4] == (TokenType::Does, r"(?i)\bdoes\b"@));
    assert(r"(?i)\bdoes\b"@ =~= r"(?i)\b"@ + "does"@ + r"\b"@);
    reveal_strlit(r"(?i)\bequal\b");
    reveal_strlit("equal");
    assert(token_patterns()[5] == (TokenType::Equal, r"(?i)\bequal\b"@));
    assert(r"(?i)\bequal\b"@ =~= r"(?i)\b"@ + "equal"@ + r"\b"@);
    reveal_strlit(r"(?i)\bless\b");
    reveal_strlit("less");
    assert(token_patterns()[6] == (TokenType::Less, r"(?i)\bless\b"@));
    assert(r"(?i)\bless\b"@ =~= r"(?i)\b"@ + "less"@ + r"\b"@);
    reveal_strlit(r"(?i)\bthan\b");
    reveal_strlit("than");
    assert(token_patterns()[7] == (TokenType::Than, r"(?i)\bthan\b"@));
    assert(r"(?i)\bthan\b"@ =~= r"(?i)\b"@ + "than"@ + r"\b"@);
    reveal_strlit(r"(?i)\bgreater\b");
    reveal_strlit("greater");
    assert(token_patterns()[8] == (TokenType::Greater, r"(?i)\bgreater\b"@));
    assert(r"(?i)\bgreater\b"@ =~= r"(?i)\b"@ + "greater"@ + r"\b"@);
    reveal_strlit(r"(?i)\bat\b");
    reveal_strlit("at");
    assert(token_patterns()[9] == (TokenType::At, r"(?i)\bat\b"@));
    assert(r"(?i)\bat\b"@ =~= r"(?i)\b"@ + "at"@ + r"\b"@);
    reveal_strlit(r"(?i)\bleast\b");
    reveal_strlit("least");
    assert(token_patterns()[10] == (TokenType::Least, r"(?i)\bleast\b"@));
    assert(r"(?i)\bleast\b"@ =~= r"(?i)\b"@ + "least"@ + r"\b"@);
    reveal_strlit(r"(?i)\bmost\b");
    reveal_strlit("most");
    assert(token_patterns()[11] == (TokenType::Most, r"(?i)\bmost\b"@));
    assert(r"(?i)\bmost\b"@ =~= r"(?i)\b"@ + "most"@ + r"\b"@);
    reveal_strlit(r"(?i)\bmore\b");
    reveal_strlit("more");
    assert(token_patterns()[12] == (TokenType::More, r"(?i)\bmore\b"@));
    assert(r"(?i)\bmore\b"@ =~= r"(?i)\b"@ + "more"@ + r"\b"@);
    reveal_strlit(r"(?i)\bfewer\b");
    reveal_strlit("fewer");
    assert(token_patterns()[13] == (TokenType::Fewer, r"(?i)\bfewer\b"@));
    assert(r"(?i)\bfewer\b"@ =~= r"(?i)\b"@ + "fewer"@ + r"\b"@);
    reveal_strlit(r"(?i)\bto\b");
    reveal_strlit("to");
    assert(token_patterns()[14] == (TokenType::To, r"(?i)\bto\b"@));
    assert(r"(?i)\bto\b"@ =~= r"(?i)\b"@ + "to"@ + r"\b"@);
    reveal_strlit(r"(?i)\b(wednesday|wednesda|wednesd|wednes|wedne|wedn|wed|we|w)\b");
    reveal_strlit("wednesday");
    reveal_strlit("wednesda");
    reveal_strlit("wednesd");
    reveal_strlit("wednes");
    reveal_strlit("wedne");
    reveal_strlit("wedn");
    reveal_strlit("wed");
    reveal_strlit("we");
    reveal_strlit("w");
    assert(token_patterns()[15] == (TokenType::Wednesday, r"(?i)\b(wednesday|wednesda|wednesd|wednes|wedne|wedn|wed|we|w)\b"@));
    assert(r"(?i)\b(wednesday|wednesda|wednesd|wednes|wedne|wedn|wed|we|w)\b"@ =~= r"(?i)\b("@ + join(seq!["wednesday"@, "wednesda"@, "wednesd"@, "wednes"@, "wedne"@, "wedn"@, "wed"@, "we"@, "w"@], "|"@) + r")\b"@);
    reveal_strlit(r"(?i)\b(thursday|thursda|thurs|thur|thu|th)\b");
    reveal_strlit("thursday");
    reveal_strlit("thursda");
    reveal_strlit("thurs");
    reveal_strlit("thur");
    reveal_strlit("thu");
    reveal_strlit("th");
    assert(token_patterns()[16] == (TokenType::Thursday, r"(?i)\b(thursday|thursda|thurs|thur|thu|th)\b"@));
    assert(r"(?i)\b(thursday|thursda|thurs|thur|thu|th)\b"@ =~= r"(?i)\b("@ + join(seq!["thursday"@, "thursda"@, "thurs"@, "thur"@, "thu"@, "th"@], "|"@) + r")\b"@);
    reveal_strlit(r"(?i)\b(saturday|saturda|saturd|satur|satu|sat|sa)\b");
    reveal_strlit("saturday");
    reveal_strlit("saturda");
    reveal_strlit("saturd");
    reveal_strlit("satur");
    reveal_strlit("satu");
    reveal_strlit("sat");
    reveal_strlit("sa");
    assert(token_patterns()[17] == (TokenType::Saturday, r"(?i)\b(saturday|saturda|saturd|satur|satu|sat|sa)\b"@));
    assert(r"(?i)\b(saturday|saturda|saturd|satur|satu|sat|sa)\b"@ =~= r"(?i)\b("@ + join(seq!["saturday"@, "saturda"@, "saturd"@, "satur"@, "satu"@, "sat"@, "sa"@], "|"@) + r")\b"@);
    reveal_strlit(r"(?i)\b(tuesday|tuesda|tuesd|tues|tue|tu)\b");
    reveal_strlit("tuesday");
    reveal_strlit("tuesda");
    reveal_strlit("tuesd");
    reveal_strlit("tues");
    reveal_strlit("tue");
    reveal_strlit("tu");
    assert(token_patterns()[18] == (TokenType::Tuesday, r"(?i)\b(tuesday|tuesda|tuesd|tues|tue|tu)\b"@));
    assert(r"(?i)\b(tuesday|tuesda|tuesd|tues|tue|tu)\b"@ =~= r"(?i)\b("@ + join(seq!["tuesday"@, "tuesda"@, "tuesd"@, "tues"@, "tue"@, "tu"@], "|"@) + r")\b"@);
    reveal_strlit(r"(?i)\b(monday|monda|mond|mon|mo|m)\b");
    reveal_strlit("monday");
    reveal_strlit("monda");
    reveal_strlit("mond");
    reveal_strlit("mon");
    reveal_strlit("mo");
    reveal_strlit("m");
    assert(token_patterns()[19] == (TokenType::Monday, r"(?i)\b(monday|monda|mond|mon|mo|m)\b"@));
    assert(r"(?i)\b(monday|monda|mond|mon|mo|m)\b"@ =~= r"(?i)\b("@ + join(seq!["monday"@, "monda"@, "mond"@, "mon"@, "mo"@, "m"@], "|"@) + r")\b"@);
    reveal_strlit(r"(?i)\b(friday|frida|frid|fri|fr|f)\b");
    reveal_strlit("friday");
    reveal_strlit("frida");
    reveal_strlit("frid");
    reveal_strlit("fri");
    reveal_strlit("fr");
    reveal_strlit("f");
    assert(token_patterns()[20] == (TokenType::Friday, r"(?i)\b(friday|frida|frid|fri|fr|f)\b"@));
    assert(r"(?i)\b(friday|frida|frid|fri|fr|f)\b"@ =~= r"(?i)\b("@ + join(seq!["friday"@, "frida"@, "frid"@, "fri"@, "fr"@, "f"@], "|"@) + r")\b"@);
    reveal_strlit(r"(?i)\b(sunday|sunda|sund|sun|su)\b");
    reveal_strlit("sunday");
    reveal_strlit("sunda");
    reveal_strlit("sund");
    reveal_strlit("sun");
    reveal_strlit("su");
    assert(token_patterns()[21] == (TokenType::Sunday, r"(?i)\b(sunday|sunda|sund|sun|su)\b"@));
    assert(r"(?i)\b(sunday|sunda|sund|sun|su)\b"@ =~= r"(?i)\b("@ + join(seq!["sunday"@, "sunda"@, "sund"@, "sun"@, "su"@], "|"@) + r")\b"@);
}

} // verus!
