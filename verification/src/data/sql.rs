//! Records of the course database and how they are shown.
use vstd::prelude::*;
use crate::text::{
    concat, first_field, i32_or_zero, i64_pad2, i64_string, int_decimal, int_decimal_pad2,
    join_path, opt_text, parse_i32_chars, path_join, second_field, chars_of, find_char, sub_chars,
    string_of,
};

verus! {

/// A school.
#[derive(Debug, Clone)]
pub struct School {
    pub id: String,
    pub name: String,
}

/// An academic term of a school.
#[derive(Debug, Clone)]
pub struct Term {
    pub id: String,
    pub school_id: String,
    pub name: String,
    pub year: i32,
    pub season: String,
}

/// The identifier of a class section: `SUBJECT:NUMBER-SECTION`.
pub open spec fn class_unique_id(subject_code: Seq<char>, course_number: Seq<char>, section_sequence: Seq<char>) -> Seq<char> {
    subject_code + ":"@ + course_number + "-"@ + section_sequence
}

/// The identifier of a class section.
pub fn unique_id(subject_code: &str, course_number: &str, section_sequence: &str) -> (r: String)
    ensures
        r@ == class_unique_id(subject_code@, course_number@, section_sequence@),
{
    let mut s = concat(subject_code, ":");
    s.append(course_number);
    s.append("-");
    s.append(section_sequence);
    s
}

/// A `HH:MM[:SS]` time as `h:MMam` or `h:MMpm` on a 12-hour clock (hour 0
/// is 12am, hour 12 is 12pm); the hours and minutes are read around the
/// first `:` as `i32`s (0 where unreadable). Text without a `:` is kept.
pub open spec fn short_time(time: Seq<char>) -> Seq<char> {
    match second_field(time) {
        None => time,
        Some(m) => {
            let hours = i32_or_zero(first_field(time));
            let minutes = i32_or_zero(m);
            let (hour, period) = if hours == 0 {
                (12, "am"@)
            } else if hours < 12 {
                (hours, "am"@)
            } else if hours == 12 {
                (12, "pm"@)
            } else {
                (hours - 12, "pm"@)
            };
            int_decimal(hour) + ":"@ + int_decimal_pad2(minutes) + period
        },
    }
}

/// Formats a time on a 12-hour clock.
pub fn format_time_short(time: &str) -> (r: String)
    ensures
        r@ == short_time(time@),
{
    let chars = chars_of(time);
    let colon = match find_char(&chars, ':') {
        Some(i) => i,
        None => return time.to_string(),
    };
    let first = sub_chars(&chars, 0, colon);
    let rest = sub_chars(&chars, colon + 1, chars.len());
    let second = match find_char(&rest, ':') {
        Some(j) => sub_chars(&rest, 0, j),
        None => rest,
    };
    let hours: i32 = match parse_i32_chars(&first) {
        Some(h) => h,
        None => 0,
    };
    let minutes: i32 = match parse_i32_chars(&second) {
        Some(m) => m,
        None => 0,
    };
    let (hour, period) = if hours == 0 {
        (12i32, "am")
    } else if hours < 12 {
        (hours, "am")
    } else if hours == 12 {
        (12i32, "pm")
    } else {
        (hours - 12, "pm")
    };
    let mut s = i64_string(hour as i64);
    s.append(":");
    let m = string_of(&i64_pad2(minutes as i64));
    s.append(m.as_str());
    s.append(period);
    s
}

/// The meeting days in order, Monday first (`M T W TH F S SU`), or `TBA`
/// when there are none.
pub open spec fn days_text(mon: bool, tue: bool, wed: bool, thu: bool, fri: bool, sat: bool, sun: bool) -> Seq<char> {
    let d = (if mon { "M"@ } else { Seq::empty() }) + (if tue { "T"@ } else { Seq::empty() }) + (if wed {
        "W"@
    } else {
        Seq::empty()
    }) + (if thu { "TH"@ } else { Seq::empty() }) + (if fri { "F"@ } else { Seq::empty() }) + (if sat {
        "S"@
    } else {
        Seq::empty()
    }) + (if sun { "SU"@ } else { Seq::empty() });
    if d.len() == 0 {
        "TBA"@
    } else {
        d
    }
}

fn push_if(s: &mut String, flag: bool, part: &str)
    ensures
        final(s)@ == old(s)@ + (if flag { part@ } else { Seq::empty() }),
{
    if flag {
        s.append(part);
    } else {
        assert(old(s)@ + Seq::<char>::empty() =~= old(s)@);
    }
}

/// The meeting days of a section.
pub fn format_days(
    is_monday: bool,
    is_tuesday: bool,
    is_wednesday: bool,
    is_thursday: bool,
    is_friday: bool,
    is_saturday: bool,
    is_sunday: bool,
) -> (r: String)
    ensures
        r@ == days_text(is_monday, is_tuesday, is_wednesday, is_thursday, is_friday, is_saturday, is_sunday),
{
    let mut days = String::new();
    proof {
        assert(days@ =~= Seq::<char>::empty());
    }
    push_if(&mut days, is_monday, "M");
    push_if(&mut days, is_tuesday, "T");
    push_if(&mut days, is_wednesday, "W");
    push_if(&mut days, is_thursday, "TH");
    push_if(&mut days, is_friday, "F");
    push_if(&mut days, is_saturday, "S");
    push_if(&mut days, is_sunday, "SU");
    proof {
        let e = Seq::<char>::empty();
        assert(e + (if is_monday { "M"@ } else { e }) =~= (if is_monday { "M"@ } else { e }));
    }
    if chars_of(days.as_str()).len() == 0 {
        "TBA".to_string()
    } else {
        days
    }
}

/// The database to query: the synchronised one when it exists, else the
/// test database.
pub fn get_default_db_path(synced_db: String, synced_exists: bool, test_db: String) -> (r: String)
    ensures
        r@ == (if synced_exists { synced_db@ } else { test_db@ }),
{
    if synced_exists {
        synced_db
    } else {
        test_db
    }
}

/// The test database: `classy/test.db` under the manifest directory, else
/// under the working directory, else under `.`.
pub fn get_test_db_path(manifest_dir: Option<String>, cwd: Option<String>) -> (r: String)
    ensures
        r@ == path_join(
            path_join(
                match opt_text(manifest_dir) {
                    Some(m) => m,
                    None => match opt_text(cwd) {
                        Some(c) => c,
                        None => "."@,
                    },
                },
                "classy"@,
            ),
            "test.db"@,
        ),
{
    let base = match manifest_dir {
        Some(m) => m,
        None => match cwd {
            Some(c) => c,
            None => ".".to_string(),
        },
    };
    let dir = join_path(base.as_str(), "classy");
    join_path(dir.as_str(), "test.db")
}

} // verus!
