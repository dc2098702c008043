//! How a class section is shown in a cell of the results table.
use vstd::prelude::*;
use vstd::string::*;
use crate::data::sql::{format_time_short, short_time};
use crate::text::{
    char_pos, chars_of, concat, find_char, i64_string, int_decimal, join, join_strings,
    lemma_char_pos_found, opt_text, string_of, sub_chars,
};

verus! {

// ---------------------------------------------------------------------------
// Day codes
// ---------------------------------------------------------------------------

/// The place of a day code in the week, Monday first: `M T W TH F S SU`
/// are 0 to 6, anything else comes last (7).
pub open spec fn day_order(code: Seq<char>) -> int {
    if code == seq!['M'] {
        0
    } else if code == seq!['T'] {
        1
    } else if code == seq!['W'] {
        2
    } else if code == seq!['T', 'H'] {
        3
    } else if code == seq!['F'] {
        4
    } else if code == seq!['S'] {
        5
    } else if code == seq!['S', 'U'] {
        6
    } else {
        7
    }
}

/// The day codes of a run of meeting days such as `MWF` or `TTH`: `TH` and
/// `SU` are read as one code, every other character is a code of its own.
pub open spec fn day_codes(days: Seq<char>) -> Seq<Seq<char>>
    decreases days.len(),
{
    if days.len() == 0 {
        Seq::empty()
    } else {
        let n: int = if days.len() >= 2 && ((days[0] == 'T' && days[1] == 'H') || (days[0] == 'S'
            && days[1] == 'U')) {
            2
        } else {
            1
        };
        seq![days.subrange(0, n)] + day_codes(days.subrange(n, days.len() as int))
    }
}

/// Meeting days as they are shown: their codes with a space between them
/// (`MWF` is shown as `M W F`, `TTH` as `T TH`).
pub open spec fn days_display(days: Seq<char>) -> Seq<char> {
    join(day_codes(days), " "@)
}

/// The place of a day code in the week.
pub fn get_day_order(code: &str) -> (r: u8)
    ensures
        r == day_order(code@),
{
    let v = chars_of(code);
    let n = v.len();
    proof {
        if n == 1 {
            assert(v@ =~= seq![v@[0]]);
        }
        if n == 2 {
            assert(v@ =~= seq![v@[0], v@[1]]);
        }
    }
    if n == 1 {
        let c = v[0];
        if c == 'M' {
            0
        } else if c == 'T' {
            1
        } else if c == 'W' {
            2
        } else if c == 'F' {
            4
        } else if c == 'S' {
            5
        } else {
            7
        }
    } else if n == 2 {
        if v[0] == 'T' && v[1] == 'H' {
            3
        } else if v[0] == 'S' && v[1] == 'U' {
            6
        } else {
            7
        }
    } else {
        7
    }
}

/// The day codes of a run of meeting days.
pub fn day_codes_of(days: &Vec<char>) -> (r: Vec<String>)
    ensures
        r.deep_view() == day_codes(days@),
{
    let mut out: Vec<String> = Vec::new();
    let mut i: usize = 0;
    assert(days@.subrange(0, days@.len() as int) =~= days@);
    assert(out.deep_view() =~= Seq::<Seq<char>>::empty());
    while i < days.len()
        invariant
            i <= days.len(),
            out.deep_view() + day_codes(days@.subrange(i as int, days@.len() as int)) == day_codes(days@),
        decreases days.len() - i,
    {
        let ghost rest = days@.subrange(i as int, days@.len() as int);
        let two = i + 1 < days.len() && ((days[i] == 'T' && days[i + 1] == 'H') || (days[i] == 'S'
            && days[i + 1] == 'U'));
        let n: usize = if two {
            2
        } else {
            1
        };
        let code = sub_chars(days, i, i + n);
        let ghost before = out.deep_view();
        out.push(string_of(&code));
        proof {
            assert(rest[0] == days@[i as int]);
            if i + 1 < days.len() {
                assert(rest[1] == days@[i + 1]);
            }
            assert(rest.subrange(0, n as int) =~= code@);
            let next = days@.subrange((i + n) as int, days@.len() as int);
            assert(rest.subrange(n as int, rest.len() as int) =~= next);
            assert(day_codes(rest) == seq![code@] + day_codes(next));
            assert(out.deep_view() =~= before.push(code@));
            assert(out.deep_view() + day_codes(next) =~= before + (seq![code@] + day_codes(next)));
        }
        i = i + n;
    }
    assert(days@.subrange(i as int, days@.len() as int) =~= Seq::<char>::empty());
    assert(out.deep_view() + Seq::<Seq<char>>::empty() =~= out.deep_view());
    out
}

/// Meeting days as they are shown.
pub fn format_day_for_display(days: &str) -> (r: String)
    ensures
        r@ == days_display(days@),
{
    let v = chars_of(days);
    let codes = day_codes_of(&v);
    join_strings(&codes, " ")
}

// ---------------------------------------------------------------------------
// Meeting times
// ---------------------------------------------------------------------------

/// std's `str::split` on one character: the pieces between the occurrences
/// of `c`, in order (a text without `c` is one piece).
pub open spec fn split_on(s: Seq<char>, c: char) -> Seq<Seq<char>>
    decreases s.len(),
{
    match char_pos(s, c) {
        None => seq![s],
        Some(i) => {
            proof {
                lemma_char_pos_found(s, c);
            }
            seq![s.subrange(0, i)] + split_on(s.subrange(i + 1, s.len() as int), c)
        },
    }
}

/// One meeting `DAYS:START-END` (such as `M:08:00:00-10:45:00`): the days
/// are the text before the first `:`, the times the text after it, split at
/// their first `-` and shown on a 12-hour clock. It is kept, with the place
/// in the week of its first day code, when both separators are there and the
/// days are not empty.
pub open spec fn meeting_entry(part: Seq<char>) -> Option<(int, Seq<char>)> {
    match char_pos(part, ':') {
        None => None,
        Some(c) => {
            let days = part.subrange(0, c);
            let time = part.subrange(c + 1, part.len() as int);
            match char_pos(time, '-') {
                None => None,
                Some(d) => if days.len() == 0 {
                    None
                } else {
                    Some(
                        (
                            day_order(day_codes(days)[0]),
                            days_display(days) + " "@ + short_time(time.subrange(0, d)) + "-"@
                                + short_time(time.subrange(d + 1, time.len() as int)),
                        ),
                    )
                },
            }
        },
    }
}

/// The meetings kept of the given pieces, in order.
pub open spec fn meeting_entries(parts: Seq<Seq<char>>) -> Seq<(int, Seq<char>)>
    decreases parts.len(),
{
    if parts.len() == 0 {
        Seq::empty()
    } else {
        (match meeting_entry(parts[0]) {
            Some(e) => seq![e],
            None => Seq::empty(),
        }) + meeting_entries(parts.drop_first())
    }
}

/// The texts of the meetings whose day has the place `d`, in their order.
pub open spec fn with_order(entries: Seq<(int, Seq<char>)>, d: int) -> Seq<Seq<char>>
    decreases entries.len(),
{
    if entries.len() == 0 {
        Seq::empty()
    } else {
        with_order(entries.drop_last(), d) + (if entries.last().0 == d {
            seq![entries.last().1]
        } else {
            Seq::empty()
        })
    }
}

/// The texts of the meetings whose day has a place below `upto`, sorted by
/// that place; meetings of the same place keep their order (a stable sort).
pub open spec fn by_day_order(entries: Seq<(int, Seq<char>)>, upto: int) -> Seq<Seq<char>>
    decreases upto,
{
    if upto <= 0 {
        Seq::empty()
    } else {
        by_day_order(entries, upto - 1) + with_order(entries, upto - 1)
    }
}

/// The line of meeting days and times: the meetings sorted by day, Monday
/// first, joined with `, `; the days followed by ` TBA` when there are no
/// meeting times or none of them reads.
pub open spec fn meeting_line(days: Seq<char>, meeting_times: Option<Seq<char>>) -> Seq<char> {
    match meeting_times {
        None => days + " TBA"@,
        Some(mt) => {
            let texts = by_day_order(meeting_entries(split_on(mt, '|')), 8);
            if texts.len() == 0 {
                days + " TBA"@
            } else {
                join(texts, ", "@)
            }
        },
    }
}

/// Day places and texts held side by side.
pub open spec fn pairs(orders: Seq<u8>, texts: Seq<Seq<char>>) -> Seq<(int, Seq<char>)> {
    Seq::new(orders.len(), |i: int| (orders[i] as int, texts[i]))
}

/// One meeting of the meeting times.
fn meeting_entry_of(part: &Vec<char>) -> (r: Option<(u8, String)>)
    ensures
        match r {
            Some((o, t)) => meeting_entry(part@) == Some((o as int, t@)),
            None => meeting_entry(part@) is None,
        },
{
    let colon = match find_char(part, ':') {
        Some(c) => c,
        None => return None,
    };
    let days = sub_chars(part, 0, colon);
    let time = sub_chars(part, colon + 1, part.len());
    let dash = match find_char(&time, '-') {
        Some(d) => d,
        None => return None,
    };
    if days.len() == 0 {
        return None;
    }
    let start_text = string_of(&sub_chars(&time, 0, dash));
    let end_text = string_of(&sub_chars(&time, dash + 1, time.len()));
    let start = format_time_short(start_text.as_str());
    let end = format_time_short(end_text.as_str());
    let codes = day_codes_of(&days);
    assert(codes.deep_view().len() > 0);
    let order = get_day_order(codes[0].as_str());
    let mut text = join_strings(&codes, " ");
    text.append(" ");
    text.append(start.as_str());
    text.append("-");
    text.append(end.as_str());
    Some((order, text))
}

/// The meeting texts sorted by day, stably.
fn sort_by_day(orders: &Vec<u8>, texts: &Vec<String>) -> (r: Vec<String>)
    requires
        orders.len() == texts.len(),
    ensures
        r.deep_view() == by_day_order(pairs(orders@, texts.deep_view()), 8),
{
    let ghost es = pairs(orders@, texts.deep_view());
    let mut out: Vec<String> = Vec::new();
    let mut d: u8 = 0;
    assert(out.deep_view() =~= by_day_order(es, 0));
    while d < 8
        invariant
            d <= 8,
            orders.len() == texts.len(),
            es == pairs(orders@, texts.deep_view()),
            out.deep_view() == by_day_order(es, d as int),
        decreases 8 - d,
    {
        let mut i: usize = 0;
        assert(es.take(0) =~= Seq::<(int, Seq<char>)>::empty());
        assert(out.deep_view() + with_order(es.take(0), d as int) =~= out.deep_view());
        while i < orders.len()
            invariant
                i <= orders.len(),
                d < 8,
                orders.len() == texts.len(),
                es == pairs(orders@, texts.deep_view()),
                out.deep_view() == by_day_order(es, d as int) + with_order(es.take(i as int), d as int),
            decreases orders.len() - i,
        {
            let ghost before = out.deep_view();
            proof {
                assert(es.take(i + 1).drop_last() =~= es.take(i as int));
                assert(es.take(i + 1).last() == es[i as int]);
                assert(es[i as int] == (orders@[i as int] as int, texts@[i as int]@));
            }
            if orders[i] == d {
                out.push(texts[i].as_str().to_string());
                assert(out.deep_view() =~= before.push(texts@[i as int]@));
            } else {
                assert(before + Seq::<Seq<char>>::empty() =~= before);
            }
            i = i + 1;
        }
        assert(es.take(orders.len() as int) =~= es);
        d = d + 1;
    }
    out
}

/// The line of meeting days and times.
pub fn format_meeting_line(days: &str, meeting_times: &Option<String>) -> (r: String)
    ensures
        r@ == meeting_line(days@, opt_text(*meeting_times)),
{
    let mt = match meeting_times {
        Some(m) => m,
        None => return concat(days, " TBA"),
    };
    let mut rest = chars_of(mt.as_str());
    let mut orders: Vec<u8> = Vec::new();
    let mut texts: Vec<String> = Vec::new();
    let ghost total = meeting_entries(split_on(mt@, '|'));
    assert(pairs(orders@, texts.deep_view()) =~= Seq::<(int, Seq<char>)>::empty());
    assert(pairs(orders@, texts.deep_view()) + total =~= total);
    loop
        invariant_except_break
            pairs(orders@, texts.deep_view()) + meeting_entries(split_on(rest@, '|')) == total,
        invariant
            orders.len() == texts.len(),
            total == meeting_entries(split_on(mt@, '|')),
        ensures
            orders.len() == texts.len(),
            pairs(orders@, texts.deep_view()) == total,
        decreases rest.len(),
    {
        let found = find_char(&rest, '|');
        let end = match found {
            Some(i) => i,
            None => rest.len(),
        };
        let part = sub_chars(&rest, 0, end);
        let ghost old_rest = rest@;
        let ghost before = pairs(orders@, texts.deep_view());
        let ghost kept: Seq<(int, Seq<char>)> = match meeting_entry(part@) {
            Some(e) => seq![e],
            None => Seq::empty(),
        };
        proof {
            lemma_char_pos_found(old_rest, '|');
            let pieces = split_on(old_rest, '|');
            let tail = match found {
                Some(i) => split_on(old_rest.subrange(i + 1, old_rest.len() as int), '|'),
                None => Seq::<Seq<char>>::empty(),
            };
            if found is None {
                assert(part@ =~= old_rest);
            }
            assert(pieces =~= seq![part@] + tail);
            assert(pieces.drop_first() =~= tail);
            assert(meeting_entries(pieces) == kept + meeting_entries(tail));
        }
        match meeting_entry_of(&part) {
            Some((o, t)) => {
                let ghost tv = t@;
                orders.push(o);
                texts.push(t);
                assert(pairs(orders@, texts.deep_view()) =~= before.push((o as int, tv)));
                assert(before.push((o as int, tv)) =~= before + kept);
            },
            None => {
                assert(before + kept =~= before);
            },
        }
        match found {
            Some(i) => {
                rest = sub_chars(&rest, i + 1, rest.len());
                assert(pairs(orders@, texts.deep_view()) + meeting_entries(split_on(rest@, '|'))
                    =~= before + (kept + meeting_entries(split_on(rest@, '|'))));
            },
            None => {
                assert(meeting_entries(Seq::<Seq<char>>::empty()) =~= Seq::<(int, Seq<char>)>::empty());
                assert(pairs(orders@, texts.deep_view()) =~= before + kept + meeting_entries(
                    Seq::<Seq<char>>::empty(),
                ));
                assert(pairs(orders@, texts.deep_view()) =~= total);
                break ;
            },
        }
    }
    let sorted = sort_by_day(&orders, &texts);
    if sorted.len() == 0 {
        concat(days, " TBA")
    } else {
        join_strings(&sorted, ", ")
    }
}

// ---------------------------------------------------------------------------
// A class section in a table cell
// ---------------------------------------------------------------------------

/// What a cell of the results table shows of a class section.
#[derive(Debug, Clone)]
pub struct ClassDisplay {
    pub subject_code: String,
    pub course_number: String,
    pub section_sequence: String,
    pub title: String,
    pub professor_name: Option<String>,
    pub days: String,
    pub meeting_times: Option<String>,
    pub enrollment: Option<i32>,
    pub max_enrollment: Option<i32>,
}

/// The mathematical value of a `ClassDisplay`.
pub ghost struct ClassDisplayView {
    pub subject_code: Seq<char>,
    pub course_number: Seq<char>,
    pub section_sequence: Seq<char>,
    pub title: Seq<char>,
    pub professor_name: Option<Seq<char>>,
    pub days: Seq<char>,
    pub meeting_times: Option<Seq<char>>,
    pub enrollment: Option<i32>,
    pub max_enrollment: Option<i32>,
}

impl View for ClassDisplay {
    type V = ClassDisplayView;

    open spec fn view(&self) -> ClassDisplayView {
        ClassDisplayView {
            subject_code: self.subject_code@,
            course_number: self.course_number@,
            section_sequence: self.section_sequence@,
            title: self.title@,
            professor_name: opt_text(self.professor_name),
            days: self.days@,
            meeting_times: opt_text(self.meeting_times),
            enrollment: self.enrollment,
            max_enrollment: self.max_enrollment,
        }
    }
}

/// A text of more than `max` characters cut to its first `keep` characters
/// followed by `...`; a shorter one unchanged.
pub open spec fn shortened(s: Seq<char>, max: int, keep: int) -> Seq<char> {
    if s.len() > max {
        s.subrange(0, keep) + "..."@
    } else {
        s
    }
}

/// The lines of a cell: the course code (`CS 101-001`); the title, cut after
/// 22 characters when longer than 25; the professor, or `TBA`, cut after 17
/// characters when longer than 20; the meeting days and times; and, when
/// both numbers are known, `enrolled/max enrolled`.
pub open spec fn display_lines(c: ClassDisplayView) -> Seq<Seq<char>> {
    let professor = match c.professor_name {
        Some(p) => p,
        None => "TBA"@,
    };
    seq![
        c.subject_code + " "@ + c.course_number + "-"@ + c.section_sequence,
        shortened(c.title, 25, 22),
        shortened(professor, 20, 17),
        meeting_line(c.days, c.meeting_times),
    ] + match (c.enrollment, c.max_enrollment) {
        (Some(e), Some(m)) => seq![int_decimal(e as int) + "/"@ + int_decimal(m as int) + " enrolled"@],
        _ => Seq::empty(),
    }
}

/// A cell has five lines when both enrollment numbers are known and four
/// otherwise; its title line is at most 25 characters long and its
/// professor line at most 20.
pub proof fn lemma_display_shape(c: ClassDisplayView)
    ensures
        display_lines(c).len() == (if c.enrollment is Some && c.max_enrollment is Some { 5int } else { 4int }),
        display_lines(c)[1].len() <= 25,
        display_lines(c)[2].len() <= 20,
{
    reveal_strlit("...");
}

/// A text cut to a width.
fn shorten(s: &str, max: usize, keep: usize) -> (r: String)
    requires
        keep <= max,
    ensures
        r@ == shortened(s@, max as int, keep as int),
{
    let v = chars_of(s);
    if v.len() > max {
        let mut r = string_of(&sub_chars(&v, 0, keep));
        r.append("...");
        r
    } else {
        s.to_string()
    }
}

/// The lines of a table cell showing a class section.
pub fn format_for_display(c: &ClassDisplay) -> (r: Vec<String>)
    ensures
        r.deep_view() == display_lines(c@),
{
    let mut lines: Vec<String> = Vec::new();
    let mut code = concat(c.subject_code.as_str(), " ");
    code.append(c.course_number.as_str());
    code.append("-");
    code.append(c.section_sequence.as_str());
    lines.push(code);
    lines.push(shorten(c.title.as_str(), 25, 22));
    let professor: &str = match &c.professor_name {
        Some(p) => p.as_str(),
        None => "TBA",
    };
    lines.push(shorten(professor, 20, 17));
    lines.push(format_meeting_line(c.days.as_str(), &c.meeting_times));
    match (c.enrollment, c.max_enrollment) {
        (Some(e), Some(m)) => {
            let mut s = i64_string(e as i64);
            s.append("/");
            let max_text = i64_string(m as i64);
            s.append(max_text.as_str());
            s.append(" enrolled");
            lines.push(s);
            assert(lines.deep_view() =~= display_lines(c@));
        },
        _ => {
            assert(lines.deep_view() =~= display_lines(c@));
        },
    }
    lines
}

} // verus!
