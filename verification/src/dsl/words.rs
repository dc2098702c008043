//! Word lists offered in suggestions and error messages.
use vstd::prelude::*;
use crate::text::push_str;

verus! {

/// The query keywords, as offered at the start of a query.
pub open spec fn entities() -> Seq<Seq<char>> {
    Seq::<Seq<char>>::empty()
        .push("professor"@)
        .push("course"@)
        .push("subject"@)
        .push("title"@)
        .push("section"@)
        .push("number"@)
        .push("description"@)
        .push("credit"@)
        .push("prerequisites"@)
        .push("corequisites"@)
        .push("enrollment"@)
        .push("campus"@)
        .push("meeting"@)
}

/// The list `entities` as owned strings.
pub fn entities_vec() -> (r: Vec<String>)
    ensures
        r.deep_view() == entities(),
{
    let mut v: Vec<String> = Vec::new();
    assert(v.deep_view() =~= Seq::<Seq<char>>::empty());
    push_str(&mut v, "professor");
    push_str(&mut v, "course");
    push_str(&mut v, "subject");
    push_str(&mut v, "title");
    push_str(&mut v, "section");
    push_str(&mut v, "number");
    push_str(&mut v, "description");
    push_str(&mut v, "credit");
    push_str(&mut v, "prerequisites");
    push_str(&mut v, "corequisites");
    push_str(&mut v, "enrollment");
    push_str(&mut v, "campus");
    push_str(&mut v, "meeting");
    v
}

/// The query keywords by their short names, offered where a query cannot start.
pub open spec fn entities_short() -> Seq<Seq<char>> {
    Seq::<Seq<char>>::empty()
        .push("prof"@)
        .push("course"@)
        .push("subject"@)
        .push("title"@)
        .push("section"@)
        .push("number"@)
        .push("description"@)
        .push("credit"@)
        .push("prereqs"@)
        .push("corereqs"@)
        .push("enrollment"@)
        .push("campus"@)
        .push("meeting"@)
}

/// The list `entities_short` as owned strings.
pub fn entities_short_vec() -> (r: Vec<String>)
    ensures
        r.deep_view() == entities_short(),
{
    let mut v: Vec<String> = Vec::new();
    assert(v.deep_view() =~= Seq::<Seq<char>>::empty());
    push_str(&mut v, "prof");
    push_str(&mut v, "course");
    push_str(&mut v, "subject");
    push_str(&mut v, "title");
    push_str(&mut v, "section");
    push_str(&mut v, "number");
    push_str(&mut v, "description");
    push_str(&mut v, "credit");
    push_str(&mut v, "prereqs");
    push_str(&mut v, "corereqs");
    push_str(&mut v, "enrollment");
    push_str(&mut v, "campus");
    push_str(&mut v, "meeting");
    v
}

/// The query keywords offered after `and` or `or`.
pub open spec fn entities_next() -> Seq<Seq<char>> {
    Seq::<Seq<char>>::empty()
        .push("professor"@)
        .push("course"@)
        .push("subject"@)
        .push("title"@)
        .push("section"@)
        .push("number"@)
        .push("description"@)
        .push("credit"@)
        .push("prereqs"@)
        .push("corereqs"@)
        .push("enrollment"@)
        .push("campus"@)
        .push("meeting"@)
}

/// The list `entities_next` as owned strings.
pub fn entities_next_vec() -> (r: Vec<String>)
    ensures
        r.deep_view() == entities_next(),
{
    let mut v: Vec<String> = Vec::new();
    assert(v.deep_view() =~= Seq::<Seq<char>>::empty());
    push_str(&mut v, "professor");
    push_str(&mut v, "course");
    push_str(&mut v, "subject");
    push_str(&mut v, "title");
    push_str(&mut v, "section");
    push_str(&mut v, "number");
    push_str(&mut v, "description");
    push_str(&mut v, "credit");
    push_str(&mut v, "prereqs");
    push_str(&mut v, "corereqs");
    push_str(&mut v, "enrollment");
    push_str(&mut v, "campus");
    push_str(&mut v, "meeting");
    v
}

/// What may follow `course`.
pub open spec fn course_next() -> Seq<Seq<char>> {
    Seq::<Seq<char>>::empty()
        .push("subject"@)
        .push("number"@)
        .push("title"@)
        .push("description"@)
        .push("credit"@)
        .push("is"@)
        .push("contains"@)
        .push("equals"@)
}

/// The list `course_next` as owned strings.
pub fn course_next_vec() -> (r: Vec<String>)
    ensures
        r.deep_view() == course_next(),
{
    let mut v: Vec<String> = Vec::new();
    assert(v.deep_view() =~= Seq::<Seq<char>>::empty());
    push_str(&mut v, "subject");
    push_str(&mut v, "number");
    push_str(&mut v, "title");
    push_str(&mut v, "description");
    push_str(&mut v, "credit");
    push_str(&mut v, "is");
    push_str(&mut v, "contains");
    push_str(&mut v, "equals");
    v
}

/// What may follow `section`.
pub open spec fn section_next() -> Seq<Seq<char>> {
    Seq::<Seq<char>>::empty()
        .push("subject"@)
        .push("course"@)
        .push("enrollment"@)
        .push("instruction"@)
        .push("campus"@)
        .push("size"@)
        .push("cap"@)
        .push("full"@)
}

/// The list `section_next` as owned strings.
pub fn section_next_vec() -> (r: Vec<String>)
    ensures
        r.deep_view() == section_next(),
{
    let mut v: Vec<String> = Vec::new();
    assert(v.deep_view() =~= Seq::<Seq<char>>::empty());
    push_str(&mut v, "subject");
    push_str(&mut v, "course");
    push_str(&mut v, "enrollment");
    push_str(&mut v, "instruction");
    push_str(&mut v, "campus");
    push_str(&mut v, "size");
    push_str(&mut v, "cap");
    push_str(&mut v, "full");
    v
}

/// What may follow a complete query.
pub open spec fn query_end() -> Seq<Seq<char>> {
    Seq::<Seq<char>>::empty()
        .push("and"@)
        .push("or"@)
        .push("remove extra text"@)
}

/// The list `query_end` as owned strings.
pub fn query_end_vec() -> (r: Vec<String>)
    ensures
        r.deep_view() == query_end(),
{
    let mut v: Vec<String> = Vec::new();
    assert(v.deep_view() =~= Seq::<Seq<char>>::empty());
    push_str(&mut v, "and");
    push_str(&mut v, "or");
    push_str(&mut v, "remove extra text");
    v
}

/// The logical connectives.
pub open spec fn logical_ops() -> Seq<Seq<char>> {
    Seq::<Seq<char>>::empty()
        .push("and"@)
        .push("or"@)
}

/// The list `logical_ops` as owned strings.
pub fn logical_ops_vec() -> (r: Vec<String>)
    ensures
        r.deep_view() == logical_ops(),
{
    let mut v: Vec<String> = Vec::new();
    assert(v.deep_view() =~= Seq::<Seq<char>>::empty());
    push_str(&mut v, "and");
    push_str(&mut v, "or");
    v
}

/// The word after `meeting`.
pub open spec fn type_word() -> Seq<Seq<char>> {
    Seq::<Seq<char>>::empty()
        .push("type"@)
}

/// The list `type_word` as owned strings.
pub fn type_word_vec() -> (r: Vec<String>)
    ensures
        r.deep_view() == type_word(),
{
    let mut v: Vec<String> = Vec::new();
    assert(v.deep_view() =~= Seq::<Seq<char>>::empty());
    push_str(&mut v, "type");
    v
}

/// The word after `credit`.
pub open spec fn hours_word() -> Seq<Seq<char>> {
    Seq::<Seq<char>>::empty()
        .push("hours"@)
}

/// The list `hours_word` as owned strings.
pub fn hours_word_vec() -> (r: Vec<String>)
    ensures
        r.deep_view() == hours_word(),
{
    let mut v: Vec<String> = Vec::new();
    assert(v.deep_view() =~= Seq::<Seq<char>>::empty());
    push_str(&mut v, "hours");
    v
}

/// The word between the two times of a range.
pub open spec fn to_word() -> Seq<Seq<char>> {
    Seq::<Seq<char>>::empty()
        .push("to"@)
}

/// The list `to_word` as owned strings.
pub fn to_word_vec() -> (r: Vec<String>)
    ensures
        r.deep_view() == to_word(),
{
    let mut v: Vec<String> = Vec::new();
    assert(v.deep_view() =~= Seq::<Seq<char>>::empty());
    push_str(&mut v, "to");
    v
}

/// The words between the two times of a `between` range.
pub open spec fn and_to_words() -> Seq<Seq<char>> {
    Seq::<Seq<char>>::empty()
        .push("and"@)
        .push("to"@)
}

/// The list `and_to_words` as owned strings.
pub fn and_to_words_vec() -> (r: Vec<String>)
    ensures
        r.deep_view() == and_to_words(),
{
    let mut v: Vec<String> = Vec::new();
    assert(v.deep_view() =~= Seq::<Seq<char>>::empty());
    push_str(&mut v, "and");
    push_str(&mut v, "to");
    v
}

/// The keywords of a time query.
pub open spec fn start_end() -> Seq<Seq<char>> {
    Seq::<Seq<char>>::empty()
        .push("start"@)
        .push("end"@)
}

/// The list `start_end` as owned strings.
pub fn start_end_vec() -> (r: Vec<String>)
    ensures
        r.deep_view() == start_end(),
{
    let mut v: Vec<String> = Vec::new();
    assert(v.deep_view() =~= Seq::<Seq<char>>::empty());
    push_str(&mut v, "start");
    push_str(&mut v, "end");
    v
}

/// The days of the week.
pub open spec fn day_names() -> Seq<Seq<char>> {
    Seq::<Seq<char>>::empty()
        .push("monday"@)
        .push("tuesday"@)
        .push("wednesday"@)
        .push("thursday"@)
        .push("friday"@)
        .push("saturday"@)
        .push("sunday"@)
}

/// The list `day_names` as owned strings.
pub fn day_names_vec() -> (r: Vec<String>)
    ensures
        r.deep_view() == day_names(),
{
    let mut v: Vec<String> = Vec::new();
    assert(v.deep_view() =~= Seq::<Seq<char>>::empty());
    push_str(&mut v, "monday");
    push_str(&mut v, "tuesday");
    push_str(&mut v, "wednesday");
    push_str(&mut v, "thursday");
    push_str(&mut v, "friday");
    push_str(&mut v, "saturday");
    push_str(&mut v, "sunday");
    v
}

/// The string conditions expected after a field keyword.
pub open spec fn condition_words() -> Seq<Seq<char>> {
    Seq::<Seq<char>>::empty()
        .push("is"@)
        .push("equals"@)
        .push("contains"@)
        .push("has"@)
        .push("starts"@)
        .push("ends"@)
        .push("="@)
        .push("!="@)
}

/// The list `condition_words` as owned strings.
pub fn condition_words_vec() -> (r: Vec<String>)
    ensures
        r.deep_view() == condition_words(),
{
    let mut v: Vec<String> = Vec::new();
    assert(v.deep_view() =~= Seq::<Seq<char>>::empty());
    push_str(&mut v, "is");
    push_str(&mut v, "equals");
    push_str(&mut v, "contains");
    push_str(&mut v, "has");
    push_str(&mut v, "starts");
    push_str(&mut v, "ends");
    push_str(&mut v, "=");
    push_str(&mut v, "!=");
    v
}

/// The string conditions, with their second words.
pub open spec fn condition_phrases() -> Seq<Seq<char>> {
    Seq::<Seq<char>>::empty()
        .push("is"@)
        .push("equals"@)
        .push("contains"@)
        .push("has"@)
        .push("starts with"@)
        .push("ends with"@)
}

/// The list `condition_phrases` as owned strings.
pub fn condition_phrases_vec() -> (r: Vec<String>)
    ensures
        r.deep_view() == condition_phrases(),
{
    let mut v: Vec<String> = Vec::new();
    assert(v.deep_view() =~= Seq::<Seq<char>>::empty());
    push_str(&mut v, "is");
    push_str(&mut v, "equals");
    push_str(&mut v, "contains");
    push_str(&mut v, "has");
    push_str(&mut v, "starts with");
    push_str(&mut v, "ends with");
    v
}

/// The word string conditions.
pub open spec fn condition_words6() -> Seq<Seq<char>> {
    Seq::<Seq<char>>::empty()
        .push("is"@)
        .push("equals"@)
        .push("contains"@)
        .push("has"@)
        .push("starts"@)
        .push("ends"@)
}

/// The list `condition_words6` as owned strings.
pub fn condition_words6_vec() -> (r: Vec<String>)
    ensures
        r.deep_view() == condition_words6(),
{
    let mut v: Vec<String> = Vec::new();
    assert(v.deep_view() =~= Seq::<Seq<char>>::empty());
    push_str(&mut v, "is");
    push_str(&mut v, "equals");
    push_str(&mut v, "contains");
    push_str(&mut v, "has");
    push_str(&mut v, "starts");
    push_str(&mut v, "ends");
    v
}

/// The numeric comparisons expected after a numeric field.
pub open spec fn binop_words() -> Seq<Seq<char>> {
    Seq::<Seq<char>>::empty()
        .push("="@)
        .push("!="@)
        .push("<"@)
        .push(">"@)
        .push("<="@)
        .push(">="@)
        .push("equals"@)
        .push("is"@)
        .push("less than"@)
        .push("greater than"@)
}

/// The list `binop_words` as owned strings.
pub fn binop_words_vec() -> (r: Vec<String>)
    ensures
        r.deep_view() == binop_words(),
{
    let mut v: Vec<String> = Vec::new();
    assert(v.deep_view() =~= Seq::<Seq<char>>::empty());
    push_str(&mut v, "=");
    push_str(&mut v, "!=");
    push_str(&mut v, "<");
    push_str(&mut v, ">");
    push_str(&mut v, "<=");
    push_str(&mut v, ">=");
    push_str(&mut v, "equals");
    push_str(&mut v, "is");
    push_str(&mut v, "less than");
    push_str(&mut v, "greater than");
    v
}

/// What may stand where a value is expected.
pub open spec fn value_kinds() -> Seq<Seq<char>> {
    Seq::<Seq<char>>::empty()
        .push("text value"@)
        .push("quoted string"@)
        .push("identifier"@)
}

/// The list `value_kinds` as owned strings.
pub fn value_kinds_vec() -> (r: Vec<String>)
    ensures
        r.deep_view() == value_kinds(),
{
    let mut v: Vec<String> = Vec::new();
    assert(v.deep_view() =~= Seq::<Seq<char>>::empty());
    push_str(&mut v, "text value");
    push_str(&mut v, "quoted string");
    push_str(&mut v, "identifier");
    v
}

/// Remedies for a doubled operator where a value is expected.
pub open spec fn value_fixes() -> Seq<Seq<char>> {
    Seq::<Seq<char>>::empty()
        .push("text value"@)
        .push("remove duplicate operator"@)
}

/// The list `value_fixes` as owned strings.
pub fn value_fixes_vec() -> (r: Vec<String>)
    ensures
        r.deep_view() == value_fixes(),
{
    let mut v: Vec<String> = Vec::new();
    assert(v.deep_view() =~= Seq::<Seq<char>>::empty());
    push_str(&mut v, "text value");
    push_str(&mut v, "remove duplicate operator");
    v
}

/// The string conditions offered after a field keyword.
pub open spec fn string_conditions() -> Seq<Seq<char>> {
    Seq::<Seq<char>>::empty()
        .push("is"@)
        .push("equals"@)
        .push("="@)
        .push("!="@)
        .push("contains"@)
        .push("has"@)
        .push("starts with"@)
        .push("ends with"@)
        .push("does not equal"@)
}

/// The list `string_conditions` as owned strings.
pub fn string_conditions_vec() -> (r: Vec<String>)
    ensures
        r.deep_view() == string_conditions(),
{
    let mut v: Vec<String> = Vec::new();
    assert(v.deep_view() =~= Seq::<Seq<char>>::empty());
    push_str(&mut v, "is");
    push_str(&mut v, "equals");
    push_str(&mut v, "=");
    push_str(&mut v, "!=");
    push_str(&mut v, "contains");
    push_str(&mut v, "has");
    push_str(&mut v, "starts with");
    push_str(&mut v, "ends with");
    push_str(&mut v, "does not equal");
    v
}

/// The numeric comparisons offered after a numeric field.
pub open spec fn numeric_binops() -> Seq<Seq<char>> {
    Seq::<Seq<char>>::empty()
        .push("="@)
        .push("!="@)
        .push("<"@)
        .push(">"@)
        .push("<="@)
        .push(">="@)
        .push("is"@)
        .push("equals"@)
        .push("less than"@)
        .push("greater than"@)
        .push("at least"@)
        .push("at most"@)
        .push("more than"@)
        .push("fewer than"@)
}

/// The list `numeric_binops` as owned strings.
pub fn numeric_binops_vec() -> (r: Vec<String>)
    ensures
        r.deep_view() == numeric_binops(),
{
    let mut v: Vec<String> = Vec::new();
    assert(v.deep_view() =~= Seq::<Seq<char>>::empty());
    push_str(&mut v, "=");
    push_str(&mut v, "!=");
    push_str(&mut v, "<");
    push_str(&mut v, ">");
    push_str(&mut v, "<=");
    push_str(&mut v, ">=");
    push_str(&mut v, "is");
    push_str(&mut v, "equals");
    push_str(&mut v, "less than");
    push_str(&mut v, "greater than");
    push_str(&mut v, "at least");
    push_str(&mut v, "at most");
    push_str(&mut v, "more than");
    push_str(&mut v, "fewer than");
    v
}

/// What is offered after `course`: its fields, then the string conditions.
pub open spec fn course_context() -> Seq<Seq<char>> {
    Seq::<Seq<char>>::empty()
        .push("subject"@)
        .push("number"@)
        .push("title"@)
        .push("description"@)
        .push("credit"@)
        .push("prereqs"@)
        .push("corereqs"@)
        .push("is"@)
        .push("equals"@)
        .push("="@)
        .push("!="@)
        .push("contains"@)
        .push("has"@)
        .push("starts with"@)
        .push("ends with"@)
        .push("does not equal"@)
}

/// The list `course_context` as owned strings.
pub fn course_context_vec() -> (r: Vec<String>)
    ensures
        r.deep_view() == course_context(),
{
    let mut v: Vec<String> = Vec::new();
    assert(v.deep_view() =~= Seq::<Seq<char>>::empty());
    push_str(&mut v, "subject");
    push_str(&mut v, "number");
    push_str(&mut v, "title");
    push_str(&mut v, "description");
    push_str(&mut v, "credit");
    push_str(&mut v, "prereqs");
    push_str(&mut v, "corereqs");
    push_str(&mut v, "is");
    push_str(&mut v, "equals");
    push_str(&mut v, "=");
    push_str(&mut v, "!=");
    push_str(&mut v, "contains");
    push_str(&mut v, "has");
    push_str(&mut v, "starts with");
    push_str(&mut v, "ends with");
    push_str(&mut v, "does not equal");
    v
}

/// What is offered after `section`.
pub open spec fn section_context() -> Seq<Seq<char>> {
    Seq::<Seq<char>>::empty()
        .push("subject"@)
        .push("number"@)
        .push("enrollment"@)
        .push("cap"@)
        .push("method"@)
        .push("campus"@)
        .push("full"@)
}

/// The list `section_context` as owned strings.
pub fn section_context_vec() -> (r: Vec<String>)
    ensures
        r.deep_view() == section_context(),
{
    let mut v: Vec<String> = Vec::new();
    assert(v.deep_view() =~= Seq::<Seq<char>>::empty());
    push_str(&mut v, "subject");
    push_str(&mut v, "number");
    push_str(&mut v, "enrollment");
    push_str(&mut v, "cap");
    push_str(&mut v, "method");
    push_str(&mut v, "campus");
    push_str(&mut v, "full");
    v
}

/// The parts of a numeric field query.
pub open spec fn numeric_parts() -> Seq<Seq<char>> {
    Seq::<Seq<char>>::empty()
        .push("<comparison>"@)
        .push("<number>"@)
}

/// The list `numeric_parts` as owned strings.
pub fn numeric_parts_vec() -> (r: Vec<String>)
    ensures
        r.deep_view() == numeric_parts(),
{
    let mut v: Vec<String> = Vec::new();
    assert(v.deep_view() =~= Seq::<Seq<char>>::empty());
    push_str(&mut v, "<comparison>");
    push_str(&mut v, "<number>");
    v
}

/// A comparison operator, as a placeholder.
pub open spec fn comparison_operator() -> Seq<Seq<char>> {
    Seq::<Seq<char>>::empty()
        .push("<comparison operator>"@)
}

/// The list `comparison_operator` as owned strings.
pub fn comparison_operator_vec() -> (r: Vec<String>)
    ensures
        r.deep_view() == comparison_operator(),
{
    let mut v: Vec<String> = Vec::new();
    assert(v.deep_view() =~= Seq::<Seq<char>>::empty());
    push_str(&mut v, "<comparison operator>");
    v
}

/// A number, as a placeholder.
pub open spec fn number_word() -> Seq<Seq<char>> {
    Seq::<Seq<char>>::empty()
        .push("<number>"@)
}

/// The list `number_word` as owned strings.
pub fn number_word_vec() -> (r: Vec<String>)
    ensures
        r.deep_view() == number_word(),
{
    let mut v: Vec<String> = Vec::new();
    assert(v.deep_view() =~= Seq::<Seq<char>>::empty());
    push_str(&mut v, "<number>");
    v
}

/// The form of a time range.
pub open spec fn range_form() -> Seq<Seq<char>> {
    Seq::<Seq<char>>::empty()
        .push("<time> to <time>"@)
}

/// The list `range_form` as owned strings.
pub fn range_form_vec() -> (r: Vec<String>)
    ensures
        r.deep_view() == range_form(),
{
    let mut v: Vec<String> = Vec::new();
    assert(v.deep_view() =~= Seq::<Seq<char>>::empty());
    push_str(&mut v, "<time> to <time>");
    v
}

/// A time value, as a placeholder.
pub open spec fn time_value() -> Seq<Seq<char>> {
    Seq::<Seq<char>>::empty()
        .push("<time value>"@)
}

/// The list `time_value` as owned strings.
pub fn time_value_vec() -> (r: Vec<String>)
    ensures
        r.deep_view() == time_value(),
{
    let mut v: Vec<String> = Vec::new();
    assert(v.deep_view() =~= Seq::<Seq<char>>::empty());
    push_str(&mut v, "<time value>");
    v
}

/// The forms of a time query.
pub open spec fn time_forms() -> Seq<Seq<char>> {
    Seq::<Seq<char>>::empty()
        .push("<comparison> <time>"@)
        .push("<time> to <time>"@)
}

/// The list `time_forms` as owned strings.
pub fn time_forms_vec() -> (r: Vec<String>)
    ensures
        r.deep_view() == time_forms(),
{
    let mut v: Vec<String> = Vec::new();
    assert(v.deep_view() =~= Seq::<Seq<char>>::empty());
    push_str(&mut v, "<comparison> <time>");
    push_str(&mut v, "<time> to <time>");
    v
}

/// Examples of day queries.
pub open spec fn day_forms() -> Seq<Seq<char>> {
    Seq::<Seq<char>>::empty()
        .push("monday <condition> <value>"@)
        .push("tuesday <condition> <value>"@)
}

/// The list `day_forms` as owned strings.
pub fn day_forms_vec() -> (r: Vec<String>)
    ensures
        r.deep_view() == day_forms(),
{
    let mut v: Vec<String> = Vec::new();
    assert(v.deep_view() =~= Seq::<Seq<char>>::empty());
    push_str(&mut v, "monday <condition> <value>");
    push_str(&mut v, "tuesday <condition> <value>");
    v
}

/// The form of a day query.
pub open spec fn day_form() -> Seq<Seq<char>> {
    Seq::<Seq<char>>::empty()
        .push("<day> <condition> <value>"@)
}

/// The list `day_form` as owned strings.
pub fn day_form_vec() -> (r: Vec<String>)
    ensures
        r.deep_view() == day_form(),
{
    let mut v: Vec<String> = Vec::new();
    assert(v.deep_view() =~= Seq::<Seq<char>>::empty());
    push_str(&mut v, "<day> <condition> <value>");
    v
}

/// The string conditions offered when a condition is malformed.
pub open spec fn condition_choices() -> Seq<Seq<char>> {
    Seq::<Seq<char>>::empty()
        .push("is"@)
        .push("is not"@)
        .push("equals"@)
        .push("does not equal"@)
        .push("contains"@)
        .push("does not contain"@)
        .push("has"@)
        .push("starts with"@)
        .push("ends with"@)
}

/// The list `condition_choices` as owned strings.
pub fn condition_choices_vec() -> (r: Vec<String>)
    ensures
        r.deep_view() == condition_choices(),
{
    let mut v: Vec<String> = Vec::new();
    assert(v.deep_view() =~= Seq::<Seq<char>>::empty());
    push_str(&mut v, "is");
    push_str(&mut v, "is not");
    push_str(&mut v, "equals");
    push_str(&mut v, "does not equal");
    push_str(&mut v, "contains");
    push_str(&mut v, "does not contain");
    push_str(&mut v, "has");
    push_str(&mut v, "starts with");
    push_str(&mut v, "ends with");
    v
}

/// What a day may be compared with.
pub open spec fn day_values() -> Seq<Seq<char>> {
    Seq::<Seq<char>>::empty()
        .push("true"@)
        .push("false"@)
        .push("<text value>"@)
}

/// The list `day_values` as owned strings.
pub fn day_values_vec() -> (r: Vec<String>)
    ensures
        r.deep_view() == day_values(),
{
    let mut v: Vec<String> = Vec::new();
    assert(v.deep_view() =~= Seq::<Seq<char>>::empty());
    push_str(&mut v, "true");
    push_str(&mut v, "false");
    push_str(&mut v, "<text value>");
    v
}

/// The two truth values.
pub open spec fn booleans() -> Seq<Seq<char>> {
    Seq::<Seq<char>>::empty()
        .push("true"@)
        .push("false"@)
}

/// The list `booleans` as owned strings.
pub fn booleans_vec() -> (r: Vec<String>)
    ensures
        r.deep_view() == booleans(),
{
    let mut v: Vec<String> = Vec::new();
    assert(v.deep_view() =~= Seq::<Seq<char>>::empty());
    push_str(&mut v, "true");
    push_str(&mut v, "false");
    v
}

/// What a string field may be compared with.
pub open spec fn text_values() -> Seq<Seq<char>> {
    Seq::<Seq<char>>::empty()
        .push("<text value>"@)
        .push("quoted string"@)
}

/// The list `text_values` as owned strings.
pub fn text_values_vec() -> (r: Vec<String>)
    ensures
        r.deep_view() == text_values(),
{
    let mut v: Vec<String> = Vec::new();
    assert(v.deep_view() =~= Seq::<Seq<char>>::empty());
    push_str(&mut v, "<text value>");
    push_str(&mut v, "quoted string");
    v
}

/// The form of a string field query.
pub open spec fn field_form() -> Seq<Seq<char>> {
    Seq::<Seq<char>>::empty()
        .push("<condition> <value>"@)
}

/// The list `field_form` as owned strings.
pub fn field_form_vec() -> (r: Vec<String>)
    ensures
        r.deep_view() == field_form(),
{
    let mut v: Vec<String> = Vec::new();
    assert(v.deep_view() =~= Seq::<Seq<char>>::empty());
    push_str(&mut v, "<condition> <value>");
    v
}

/// Example times with their am/pm suffix.
pub open spec fn time_examples() -> Seq<Seq<char>> {
    Seq::<Seq<char>>::empty()
        .push("6:00am"@)
        .push("6:00pm"@)
        .push("9:30am"@)
        .push("2:15pm"@)
}

/// The list `time_examples` as owned strings.
pub fn time_examples_vec() -> (r: Vec<String>)
    ensures
        r.deep_view() == time_examples(),
{
    let mut v: Vec<String> = Vec::new();
    assert(v.deep_view() =~= Seq::<Seq<char>>::empty());
    push_str(&mut v, "6:00am");
    push_str(&mut v, "6:00pm");
    push_str(&mut v, "9:30am");
    push_str(&mut v, "2:15pm");
    v
}

/// The first keywords offered for a blank input that does not lex.
pub open spec fn starter_words() -> Seq<Seq<char>> {
    Seq::<Seq<char>>::empty()
        .push("professor"@)
        .push("course"@)
        .push("subject"@)
        .push("title"@)
}

/// The list `starter_words` as owned strings.
pub fn starter_words_vec() -> (r: Vec<String>)
    ensures
        r.deep_view() == starter_words(),
{
    let mut v: Vec<String> = Vec::new();
    assert(v.deep_view() =~= Seq::<Seq<char>>::empty());
    push_str(&mut v, "professor");
    push_str(&mut v, "course");
    push_str(&mut v, "subject");
    push_str(&mut v, "title");
    v
}

/// The keywords a query may start with, by their short names.
pub open spec fn first_keywords() -> Seq<Seq<char>> {
    Seq::<Seq<char>>::empty()
        .push("prof"@)
        .push("course"@)
        .push("subject"@)
        .push("title"@)
        .push("section"@)
}

/// The list `first_keywords` as owned strings.
pub fn first_keywords_vec() -> (r: Vec<String>)
    ensures
        r.deep_view() == first_keywords(),
{
    let mut v: Vec<String> = Vec::new();
    assert(v.deep_view() =~= Seq::<Seq<char>>::empty());
    push_str(&mut v, "prof");
    push_str(&mut v, "course");
    push_str(&mut v, "subject");
    push_str(&mut v, "title");
    push_str(&mut v, "section");
    v
}

/// The keywords offered at the start of a query.
pub open spec fn first_words() -> Seq<Seq<char>> {
    Seq::<Seq<char>>::empty()
        .push("professor"@)
        .push("course"@)
        .push("subject"@)
        .push("title"@)
        .push("section"@)
}

/// The list `first_words` as owned strings.
pub fn first_words_vec() -> (r: Vec<String>)
    ensures
        r.deep_view() == first_words(),
{
    let mut v: Vec<String> = Vec::new();
    assert(v.deep_view() =~= Seq::<Seq<char>>::empty());
    push_str(&mut v, "professor");
    push_str(&mut v, "course");
    push_str(&mut v, "subject");
    push_str(&mut v, "title");
    push_str(&mut v, "section");
    v
}

/// What is offered after `prof`.
pub open spec fn prof_next() -> Seq<Seq<char>> {
    Seq::<Seq<char>>::empty()
        .push("is"@)
        .push("equals"@)
        .push("contains"@)
}

/// The list `prof_next` as owned strings.
pub fn prof_next_vec() -> (r: Vec<String>)
    ensures
        r.deep_view() == prof_next(),
{
    let mut v: Vec<String> = Vec::new();
    assert(v.deep_view() =~= Seq::<Seq<char>>::empty());
    push_str(&mut v, "is");
    push_str(&mut v, "equals");
    push_str(&mut v, "contains");
    v
}

/// The fields offered after `course`.
pub open spec fn course_fields() -> Seq<Seq<char>> {
    Seq::<Seq<char>>::empty()
        .push("subject"@)
        .push("number"@)
        .push("title"@)
}

/// The list `course_fields` as owned strings.
pub fn course_fields_vec() -> (r: Vec<String>)
    ensures
        r.deep_view() == course_fields(),
{
    let mut v: Vec<String> = Vec::new();
    assert(v.deep_view() =~= Seq::<Seq<char>>::empty());
    push_str(&mut v, "subject");
    push_str(&mut v, "number");
    push_str(&mut v, "title");
    v
}

/// The comparisons offered after a numeric field or a time keyword.
pub open spec fn simple_compare() -> Seq<Seq<char>> {
    Seq::<Seq<char>>::empty()
        .push("="@)
        .push(">"@)
        .push("<"@)
}

/// The list `simple_compare` as owned strings.
pub fn simple_compare_vec() -> (r: Vec<String>)
    ensures
        r.deep_view() == simple_compare(),
{
    let mut v: Vec<String> = Vec::new();
    assert(v.deep_view() =~= Seq::<Seq<char>>::empty());
    push_str(&mut v, "=");
    push_str(&mut v, ">");
    push_str(&mut v, "<");
    v
}

/// A value, as a placeholder.
pub open spec fn value_placeholder() -> Seq<Seq<char>> {
    Seq::<Seq<char>>::empty()
        .push("<value>"@)
}

/// The list `value_placeholder` as owned strings.
pub fn value_placeholder_vec() -> (r: Vec<String>)
    ensures
        r.deep_view() == value_placeholder(),
{
    let mut v: Vec<String> = Vec::new();
    assert(v.deep_view() =~= Seq::<Seq<char>>::empty());
    push_str(&mut v, "<value>");
    v
}

} // verus!
