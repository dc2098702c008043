//! Saved schedules: the file format, and the query that reloads a saved
//! schedule's classes.
//!
//! A save file holds the schedule's name, its school and its term (each on a
//! line of its own, empty when unset), then the identifiers of its classes,
//! one per line. Its file name is the save time in seconds followed by
//! `.sav`.
use vstd::prelude::*;
use crate::text::{
    digit_char, all_digits, digits_value, lemma_char_pos, char_pos, chars_of, concat, decimal, find_char, join, join_strings, lines, parse_u64_chars,
    parse_u64_spec, replace_all, str_eq, str_replace, string_of, sub_chars, text_lines,
    u64_decimal,
};

verus! {

/// The value of an optional string slice.
pub open spec fn opt_str(o: Option<&str>) -> Option<Seq<char>> {
    match o {
        Some(s) => Some(s@),
        None => None,
    }
}

/// The text of an optional value, empty when unset.
pub open spec fn or_empty(o: Option<Seq<char>>) -> Seq<char> {
    match o {
        Some(s) => s,
        None => Seq::empty(),
    }
}

/// The name of the file a schedule saved at `timestamp` is written to.
pub fn save_file_name(timestamp: u64) -> (r: String)
    ensures
        r@ == decimal(timestamp as nat) + ".sav"@,
{
    let digits = string_of(&u64_decimal(timestamp));
    concat(digits.as_str(), ".sav")
}

/// Each line followed by a line ending.
pub open spec fn terminated(items: Seq<Seq<char>>) -> Seq<char>
    decreases items.len(),
{
    if items.len() == 0 {
        Seq::empty()
    } else {
        terminated(items.drop_last()) + items.last() + "\n"@
    }
}

/// The text of a save file.
pub open spec fn save_text(
    name: Seq<char>,
    school_id: Option<Seq<char>>,
    term_id: Option<Seq<char>>,
    class_ids: Seq<Seq<char>>,
) -> Seq<char> {
    name + "\n"@ + or_empty(school_id) + "\n"@ + or_empty(term_id) + "\n"@ + terminated(class_ids)
}

fn push_line(s: &mut String, line: &str)
    ensures
        final(s)@ == old(s)@ + line@ + "\n"@,
{
    s.append(line);
    s.append("\n");
}

/// The text of a save file for a schedule with the given classes.
pub fn save_content(name: &str, school_id: Option<&str>, term_id: Option<&str>, class_ids: &Vec<String>) -> (r: String)
    ensures
        r@ == save_text(name@, opt_str(school_id), opt_str(term_id), class_ids.deep_view()),
{
    let mut content = String::new();
    proof {
        assert(content@ =~= Seq::<char>::empty());
    }
    push_line(&mut content, name);
    match school_id {
        Some(s) => push_line(&mut content, s),
        None => {
            proof {
                reveal_strlit("");
            }
            push_line(&mut content, "");
        },
    }
    match term_id {
        Some(t) => push_line(&mut content, t),
        None => {
            proof {
                reveal_strlit("");
            }
            push_line(&mut content, "");
        },
    }
    let ghost head = content@;
    let mut i: usize = 0;
    while i < class_ids.len()
        invariant
            i <= class_ids.len(),
            content@ == head + terminated(class_ids.deep_view().subrange(0, i as int)),
        decreases class_ids.len() - i,
    {
        push_line(&mut content, class_ids[i].as_str());
        proof {
            let s = class_ids.deep_view().subrange(0, i + 1);
            assert(s.drop_last() =~= class_ids.deep_view().subrange(0, i as int));
            assert(s.last() == class_ids[i as int]@);
        }
        i = i + 1;
    }
    proof {
        assert(class_ids.deep_view().subrange(0, i as int) =~= class_ids.deep_view());
        assert(head == name@ + "\n"@ + or_empty(opt_str(school_id)) + "\n"@ + or_empty(opt_str(term_id)) + "\n"@);
    }
    content
}

/// The lines that are not empty, in order.
pub open spec fn nonempty(items: Seq<Seq<char>>) -> Seq<Seq<char>>
    decreases items.len(),
{
    if items.len() == 0 {
        Seq::empty()
    } else if items.last().len() == 0 {
        nonempty(items.drop_last())
    } else {
        nonempty(items.drop_last()).push(items.last())
    }
}

/// What a save file holds.
pub struct SaveFile {
    pub name: String,
    pub timestamp: u64,
    pub school_id: Option<String>,
    pub term_id: Option<String>,
    pub class_ids: Vec<String>,
}

/// The mathematical value of a save file.
pub ghost struct SaveFileV {
    pub name: Seq<char>,
    pub timestamp: int,
    pub school_id: Option<Seq<char>>,
    pub term_id: Option<Seq<char>>,
    pub class_ids: Seq<Seq<char>>,
}

impl View for SaveFile {
    type V = SaveFileV;

    open spec fn view(&self) -> SaveFileV {
        SaveFileV {
            name: self.name@,
            timestamp: self.timestamp as int,
            school_id: match self.school_id {
                Some(s) => Some(s@),
                None => None,
            },
            term_id: match self.term_id {
                Some(s) => Some(s@),
                None => None,
            },
            class_ids: self.class_ids.deep_view(),
        }
    }
}

/// An optional value read from a line: unset when the line is empty.
pub open spec fn line_value(line: Seq<char>) -> Option<Seq<char>> {
    if line.len() == 0 {
        None
    } else {
        Some(line)
    }
}

/// Reading a save file, given its text and its file name without the
/// extension (`None` where the name is not text): its first line is the
/// schedule's name, the file name its timestamp, the next two lines its
/// school and term, and the remaining non-empty lines its classes.
pub open spec fn read_outcome(content: Seq<char>, stem: Option<Seq<char>>) -> Result<SaveFileV, Seq<char>> {
    let ls = lines(content);
    if ls.len() == 0 {
        Err("Empty save file"@)
    } else {
        match stem {
            None => Err("Invalid filename"@),
            Some(st) => match parse_u64_spec(st) {
                None => Err("Invalid timestamp in filename"@),
                Some(ts) => if ls.len() < 3 {
                    Err("Invalid save file format"@)
                } else {
                    Ok(
                        SaveFileV {
                            name: ls[0],
                            timestamp: ts,
                            school_id: line_value(ls[1]),
                            term_id: line_value(ls[2]),
                            class_ids: nonempty(ls.subrange(3, ls.len() as int)),
                        },
                    )
                },
            },
        }
    }
}

fn line_option(line: &String) -> (r: Option<String>)
    ensures
        match r {
            Some(s) => line_value(line@) == Some(s@),
            None => line_value(line@) is None,
        },
{
    if chars_of(line.as_str()).len() == 0 {
        None
    } else {
        Some(line.clone())
    }
}

/// Reads a save file from its text and its file name without the
/// extension.
pub fn read_save_file(content: &str, file_stem: Option<&str>) -> (r: Result<SaveFile, String>)
    ensures
        match read_outcome(content@, opt_str(file_stem)) {
            Ok(v) => r matches Ok(f) && f@ == v,
            Err(m) => r matches Err(e) && e@ == m,
        },
{
    let ls = text_lines(content);
    if ls.len() == 0 {
        return Err("Empty save file".to_string());
    }
    let name = ls[0].clone();
    let stem = match file_stem {
        Some(s) => s,
        None => return Err("Invalid filename".to_string()),
    };
    let timestamp = match parse_u64_chars(&chars_of(stem)) {
        Some(t) => t,
        None => return Err("Invalid timestamp in filename".to_string()),
    };
    if ls.len() < 3 {
        return Err("Invalid save file format".to_string());
    }
    let school_id = line_option(&ls[1]);
    let term_id = line_option(&ls[2]);
    let mut class_ids: Vec<String> = Vec::new();
    let ghost all = ls.deep_view();
    let mut i: usize = 3;
    proof {
        assert(class_ids.deep_view() =~= nonempty(all.subrange(3, 3)));
    }
    while i < ls.len()
        invariant
            3 <= i <= ls.len(),
            all == ls.deep_view(),
            class_ids.deep_view() == nonempty(all.subrange(3, i as int)),
        decreases ls.len() - i,
    {
        let ghost sub = all.subrange(3, i + 1);
        proof {
            assert(sub.drop_last() =~= all.subrange(3, i as int));
            assert(sub.last() == ls[i as int]@);
        }
        if chars_of(ls[i].as_str()).len() > 0 {
            let ghost before = class_ids.deep_view();
            class_ids.push(ls[i].clone());
            proof {
                assert(class_ids.deep_view() =~= before.push(ls[i as int]@));
            }
        }
        i = i + 1;
    }
    proof {
        assert(name@ == all[0]);
    }
    Ok(SaveFile { name, timestamp, school_id, term_id, class_ids })
}

/// The two parts of `s` around its only `c`; `None` unless `c` occurs
/// exactly once.
pub open spec fn split_once(s: Seq<char>, c: char) -> Option<(Seq<char>, Seq<char>)> {
    match char_pos(s, c) {
        Some(i) => if char_pos(s.subrange(i + 1, s.len() as int), c) is None {
            Some((s.subrange(0, i), s.subrange(i + 1, s.len() as int)))
        } else {
            None
        },
        None => None,
    }
}

fn split_once_at(v: &Vec<char>, c: char) -> (r: Option<(Vec<char>, Vec<char>)>)
    ensures
        match r {
            Some((a, b)) => split_once(v@, c) == Some((a@, b@)),
            None => split_once(v@, c) is None,
        },
{
    match find_char(v, c) {
        Some(i) => {
            let rest = sub_chars(v, i + 1, v.len());
            match find_char(&rest, c) {
                Some(_) => None,
                None => Some((sub_chars(v, 0, i), rest)),
            }
        },
        None => None,
    }
}

/// `s` with its single quotes doubled.
pub open spec fn sql_escape(s: Seq<char>) -> Seq<char> {
    replace_all(s, "'"@, "''"@)
}

/// The condition selecting one saved class, from its identifier
/// `SUBJECT:NUMBER-SECTION`; `None` for an identifier without exactly one
/// `:`, or whose part after it has not exactly one `-`.
pub open spec fn class_condition(class_id: Seq<char>) -> Option<Seq<char>> {
    match split_once(class_id, ':') {
        Some((subject, rest)) => match split_once(rest, '-') {
            Some((course, section)) => Some(
                "(s.subject_code = '"@ + sql_escape(subject) + "' AND s.course_number = '"@ + sql_escape(course)
                    + "' AND s.sequence = '"@ + sql_escape(section) + "')"@,
            ),
            None => None,
        },
        None => None,
    }
}

/// The condition selecting one saved class.
pub fn class_id_condition(class_id: &str) -> (r: Option<String>)
    ensures
        match r {
            Some(s) => class_condition(class_id@) == Some(s@),
            None => class_condition(class_id@) is None,
        },
{
    let v = chars_of(class_id);
    let (subject, rest) = match split_once_at(&v, ':') {
        Some(p) => p,
        None => return None,
    };
    let (course, section) = match split_once_at(&rest, '-') {
        Some(p) => p,
        None => return None,
    };
    let subject_escaped = str_replace(string_of(&subject).as_str(), "'", "''");
    let course_escaped = str_replace(string_of(&course).as_str(), "'", "''");
    let section_escaped = str_replace(string_of(&section).as_str(), "'", "''");
    let mut s = concat("(s.subject_code = '", subject_escaped.as_str());
    s.append("' AND s.course_number = '");
    s.append(course_escaped.as_str());
    s.append("' AND s.sequence = '");
    s.append(section_escaped.as_str());
    s.append("')");
    Some(s)
}

/// The conditions of the identifiers that read as class identifiers, in
/// order.
pub open spec fn class_conditions(ids: Seq<Seq<char>>) -> Seq<Seq<char>>
    decreases ids.len(),
{
    if ids.len() == 0 {
        Seq::empty()
    } else {
        match class_condition(ids.last()) {
            Some(c) => class_conditions(ids.drop_last()).push(c),
            None => class_conditions(ids.drop_last()),
        }
    }
}

/// The school and term filters of a saved schedule's query: the school
/// unless it is the `_test` school, and the term, each when set.
pub open spec fn schedule_filters(school_id: Option<Seq<char>>, term_id: Option<Seq<char>>) -> Seq<Seq<char>> {
    let by_school = match school_id {
        Some(s) => if s != "_test"@ {
            Seq::empty().push("s.school_id = '"@ + sql_escape(s) + "'"@)
        } else {
            Seq::empty()
        },
        None => Seq::empty(),
    };
    match term_id {
        Some(t) => by_school.push("s.term_collection_id = '"@ + sql_escape(t) + "'"@),
        None => by_school,
    }
}

/// The text of the query that reloads saved classes, up to its condition.
pub open spec fn saved_query_prefix() -> Seq<char> {
    "SELECT c.subject_code, c.number AS course_number, c.title, c.description, c.credit_hours, c.prerequisites, c.corequisites, s.sequence AS section_sequence, s.max_enrollment, s.enrollment, s.instruction_method, s.campus, p.name AS professor_name, p.email_address AS professor_email, GROUP_CONCAT( (CASE WHEN mt.is_monday = 1 THEN 'M' ELSE '' END || CASE WHEN mt.is_tuesday = 1 THEN 'T' ELSE '' END || CASE WHEN mt.is_wednesday = 1 THEN 'W' ELSE '' END || CASE WHEN mt.is_thursday = 1 THEN 'TH' ELSE '' END || CASE WHEN mt.is_friday = 1 THEN 'F' ELSE '' END || CASE WHEN mt.is_saturday = 1 THEN 'S' ELSE '' END || CASE WHEN mt.is_sunday = 1 THEN 'SU' ELSE '' END) || ':' || mt.start_minutes || '-' || mt.end_minutes, '|' ) AS meeting_times, GROUP_CONCAT(DISTINCT mt.meeting_type) AS meeting_type, MAX(mt.is_monday) AS is_monday, MAX(mt.is_tuesday) AS is_tuesday, MAX(mt.is_wednesday) AS is_wednesday, MAX(mt.is_thursday) AS is_thursday, MAX(mt.is_friday) AS is_friday, MAX(mt.is_saturday) AS is_saturday, MAX(mt.is_sunday) AS is_sunday FROM sections s JOIN courses c ON s.school_id = c.school_id AND s.subject_code = c.subject_code AND s.course_number = c.number LEFT JOIN professors p ON s.primary_professor_id = p.id AND s.school_id = p.school_id LEFT JOIN meeting_times mt ON s.sequence = mt.section_sequence AND s.term_collection_id = mt.term_collection_id AND s.school_id = mt.school_id AND s.subject_code = mt.subject_code AND s.course_number = mt.course_number WHERE "@
}

/// The text of the query that reloads saved classes, after its condition.
pub open spec fn saved_query_suffix() -> Seq<char> {
    " GROUP BY c.subject_code, c.number, c.title, c.description, c.credit_hours, c.prerequisites, c.corequisites, s.sequence, s.term_collection_id, s.school_id, s.max_enrollment, s.enrollment, s.instruction_method, s.campus, p.name, p.email_address"@
}

/// The query that reloads a saved schedule's classes: any of the saved
/// classes, within the schedule's school and term. `None` when no
/// identifier reads as a class identifier, and there is nothing to load.
pub open spec fn saved_query(class_ids: Seq<Seq<char>>, school_id: Option<Seq<char>>, term_id: Option<Seq<char>>) -> Option<Seq<char>> {
    let conds = class_conditions(class_ids);
    if conds.len() == 0 {
        None
    } else {
        let filters = schedule_filters(school_id, term_id);
        let classes = join(conds, " OR "@);
        let condition = if filters.len() == 0 {
            classes
        } else {
            "("@ + classes + ") AND "@ + join(filters, " AND "@)
        };
        Some(saved_query_prefix() + condition + saved_query_suffix())
    }
}

/// The school and term filters of a query, as `schedule_filters` states
/// them.
pub fn schedule_filter_list(school_id: Option<&str>, term_id: Option<&str>) -> (r: Vec<String>)
    ensures
        r.deep_view() == schedule_filters(opt_str(school_id), opt_str(term_id)),
{
    let mut filters: Vec<String> = Vec::new();
    proof {
        assert(filters.deep_view() =~= Seq::<Seq<char>>::empty());
    }
    match school_id {
        Some(sid) => {
            if !str_eq(sid, "_test") {
                let esc = str_replace(sid, "'", "''");
                let mut f = concat("s.school_id = '", esc.as_str());
                f.append("'");
                filters.push(f);
                proof {
                    assert(filters.deep_view() =~= Seq::<Seq<char>>::empty().push(f@));
                }
            }
        },
        None => {},
    }
    match term_id {
        Some(tid) => {
            let esc = str_replace(tid, "'", "''");
            let mut f = concat("s.term_collection_id = '", esc.as_str());
            f.append("'");
            let ghost before = filters.deep_view();
            filters.push(f);
            proof {
                assert(filters.deep_view() =~= before.push(f@));
            }
        },
        None => {},
    }
    filters
}

/// The query that reloads a saved schedule's classes.
pub fn saved_classes_sql(class_ids: &Vec<String>, school_id: Option<&str>, term_id: Option<&str>) -> (r: Option<String>)
    ensures
        match r {
            Some(s) => saved_query(class_ids.deep_view(), opt_str(school_id), opt_str(term_id)) == Some(s@),
            None => saved_query(class_ids.deep_view(), opt_str(school_id), opt_str(term_id)) is None,
        },
{
    let ghost ids = class_ids.deep_view();
    let mut conditions: Vec<String> = Vec::new();
    let mut i: usize = 0;
    proof {
        assert(conditions.deep_view() =~= class_conditions(ids.subrange(0, 0)));
    }
    while i < class_ids.len()
        invariant
            i <= class_ids.len(),
            ids == class_ids.deep_view(),
            conditions.deep_view() == class_conditions(ids.subrange(0, i as int)),
        decreases class_ids.len() - i,
    {
        let ghost sub = ids.subrange(0, i + 1);
        proof {
            assert(sub.drop_last() =~= ids.subrange(0, i as int));
            assert(sub.last() == class_ids[i as int]@);
        }
        match class_id_condition(class_ids[i].as_str()) {
            Some(c) => {
                let ghost before = conditions.deep_view();
                conditions.push(c);
                proof {
                    assert(conditions.deep_view() =~= before.push(c@));
                }
            },
            None => {},
        }
        i = i + 1;
    }
    proof {
        assert(ids.subrange(0, i as int) =~= ids);
    }
    if conditions.len() == 0 {
        return None;
    }
    let filters = schedule_filter_list(school_id, term_id);
    let class_part = join_strings(&conditions, " OR ");
    let condition = if filters.len() == 0 {
        class_part
    } else {
        let mut c = concat("(", class_part.as_str());
        c.append(") AND ");
        let f = join_strings(&filters, " AND ");
        c.append(f.as_str());
        c
    };
    let mut sql = concat("SELECT c.subject_code, c.number AS course_number, c.title, c.description, c.credit_hours, c.prerequisites, c.corequisites, s.sequence AS section_sequence, s.max_enrollment, s.enrollment, s.instruction_method, s.campus, p.name AS professor_name, p.email_address AS professor_email, GROUP_CONCAT( (CASE WHEN mt.is_monday = 1 THEN 'M' ELSE '' END || CASE WHEN mt.is_tuesday = 1 THEN 'T' ELSE '' END || CASE WHEN mt.is_wednesday = 1 THEN 'W' ELSE '' END || CASE WHEN mt.is_thursday = 1 THEN 'TH' ELSE '' END || CASE WHEN mt.is_friday = 1 THEN 'F' ELSE '' END || CASE WHEN mt.is_saturday = 1 THEN 'S' ELSE '' END || CASE WHEN mt.is_sunday = 1 THEN 'SU' ELSE '' END) || ':' || mt.start_minutes || '-' || mt.end_minutes, '|' ) AS meeting_times, GROUP_CONCAT(DISTINCT mt.meeting_type) AS meeting_type, MAX(mt.is_monday) AS is_monday, MAX(mt.is_tuesday) AS is_tuesday, MAX(mt.is_wednesday) AS is_wednesday, MAX(mt.is_thursday) AS is_thursday, MAX(mt.is_friday) AS is_friday, MAX(mt.is_saturday) AS is_saturday, MAX(mt.is_sunday) AS is_sunday FROM sections s JOIN courses c ON s.school_id = c.school_id AND s.subject_code = c.subject_code AND s.course_number = c.number LEFT JOIN professors p ON s.primary_professor_id = p.id AND s.school_id = p.school_id LEFT JOIN meeting_times mt ON s.sequence = mt.section_sequence AND s.term_collection_id = mt.term_collection_id AND s.school_id = mt.school_id AND s.subject_code = mt.subject_code AND s.course_number = mt.course_number WHERE ", condition.as_str());
    sql.append(" GROUP BY c.subject_code, c.number, c.title, c.description, c.credit_hours, c.prerequisites, c.corequisites, s.sequence, s.term_collection_id, s.school_id, s.max_enrollment, s.enrollment, s.instruction_method, s.campus, p.name, p.email_address");
    Some(sql)
}

/// Whether the classes of a schedule of this school come from the test
/// database.
pub fn schedule_uses_test_db(school_id: Option<&str>) -> (r: bool)
    ensures
        r == (opt_str(school_id) == Some("_test"@)),
{
    match school_id {
        Some(s) => str_eq(s, "_test"),
        None => false,
    }
}

/// The last position of `id` among `loaded`.
pub open spec fn last_pos(loaded: Seq<Seq<char>>, id: Seq<char>) -> Option<int>
    decreases loaded.len(),
{
    if loaded.len() == 0 {
        None
    } else if loaded.last() == id {
        Some(loaded.len() - 1)
    } else {
        last_pos(loaded.drop_last(), id)
    }
}

/// The positions of the loaded classes in the order of the saved
/// identifiers: each identifier takes the last loaded class that has it,
/// the first time it is saved; identifiers with no loaded class are
/// skipped.
pub open spec fn restored(saved: Seq<Seq<char>>, loaded: Seq<Seq<char>>) -> Seq<int>
    decreases saved.len(),
{
    if saved.len() == 0 {
        Seq::empty()
    } else {
        let prev = restored(saved.drop_last(), loaded);
        let id = saved.last();
        match last_pos(loaded, id) {
            Some(k) => if saved.drop_last().contains(id) {
                prev
            } else {
                prev.push(k)
            },
            None => prev,
        }
    }
}

fn find_last(loaded: &Vec<String>, id: &str) -> (r: Option<usize>)
    ensures
        match r {
            Some(k) => last_pos(loaded.deep_view(), id@) == Some(k as int),
            None => last_pos(loaded.deep_view(), id@) is None,
        },
{
    let ghost all = loaded.deep_view();
    let mut j: usize = loaded.len();
    assert(all.subrange(0, j as int) =~= all);
    while j > 0
        invariant
            j <= loaded.len(),
            all == loaded.deep_view(),
            last_pos(all, id@) == last_pos(all.subrange(0, j as int), id@),
        decreases j,
    {
        let ghost sub = all.subrange(0, j as int);
        proof {
            assert(sub.drop_last() =~= all.subrange(0, j - 1));
            assert(sub.last() == loaded[j - 1]@);
        }
        if str_eq(loaded[j - 1].as_str(), id) {
            return Some(j - 1);
        }
        j = j - 1;
    }
    None
}

fn seen_before(saved: &Vec<String>, upto: usize, id: &str) -> (r: bool)
    requires
        upto <= saved.len(),
    ensures
        r == saved.deep_view().subrange(0, upto as int).contains(id@),
{
    let ghost pre = saved.deep_view().subrange(0, upto as int);
    let mut i: usize = 0;
    while i < upto
        invariant
            i <= upto <= saved.len(),
            pre == saved.deep_view().subrange(0, upto as int),
            forall|k: int| 0 <= k < i ==> pre[k] != id@,
        decreases upto - i,
    {
        if str_eq(saved[i].as_str(), id) {
            assert(pre[i as int] == id@);
            return true;
        }
        i = i + 1;
    }
    false
}

/// The positions of the loaded classes, in the order the schedule saved
/// them.
pub fn restore_order(saved: &Vec<String>, loaded: &Vec<String>) -> (r: Vec<usize>)
    ensures
        r@.map_values(|k: usize| k as int) == restored(saved.deep_view(), loaded.deep_view()),
{
    let ghost ids = saved.deep_view();
    let mut order: Vec<usize> = Vec::new();
    let mut i: usize = 0;
    proof {
        assert(order@.map_values(|k: usize| k as int) =~= restored(ids.subrange(0, 0), loaded.deep_view()));
    }
    while i < saved.len()
        invariant
            i <= saved.len(),
            ids == saved.deep_view(),
            order@.map_values(|k: usize| k as int) == restored(ids.subrange(0, i as int), loaded.deep_view()),
        decreases saved.len() - i,
    {
        let ghost sub = ids.subrange(0, i + 1);
        proof {
            assert(sub.drop_last() =~= ids.subrange(0, i as int));
            assert(sub.last() == saved[i as int]@);
        }
        match find_last(loaded, saved[i].as_str()) {
            Some(k) => {
                if !seen_before(saved, i, saved[i].as_str()) {
                    let ghost before = order@;
                    order.push(k);
                    proof {
                        assert(order@.map_values(|k: usize| k as int) =~= before.map_values(|k: usize| k as int).push(k as int));
                    }
                }
            },
            None => {},
        }
        i = i + 1;
    }
    proof {
        assert(ids.subrange(0, i as int) =~= ids);
    }
    order
}

/// Schedule `a` comes before schedule `b` when it is newer, or equally new
/// and listed earlier.
pub open spec fn newer_first(stamps: Seq<u64>, a: int, b: int) -> bool {
    stamps[a] > stamps[b] || (stamps[a] == stamps[b] && a < b)
}

/// The order in which schedules saved at the given times are listed:
/// newest first, equally new ones in their original order. Every position
/// appears exactly once.
pub fn newest_first(stamps: &Vec<u64>) -> (r: Vec<usize>)
    ensures
        r.len() == stamps.len(),
        forall|i: int| 0 <= i < r.len() ==> r[i] < stamps.len(),
        forall|i: int, j: int| 0 <= i < j < r.len() ==> newer_first(stamps@, r[i] as int, r[j] as int),
{
    let mut r: Vec<usize> = Vec::new();
    let mut k: usize = 0;
    while k < stamps.len()
        invariant
            k <= stamps.len(),
            r.len() == k,
            forall|i: int| 0 <= i < r.len() ==> r[i] < k,
            forall|i: int, j: int| 0 <= i < j < r.len() ==> newer_first(stamps@, r[i] as int, r[j] as int),
        decreases stamps.len() - k,
    {
        let mut pos: usize = 0;
        while pos < r.len() && !(stamps[k] > stamps[r[pos]])
            invariant
                pos <= r.len(),
                k < stamps.len(),
                forall|i: int| 0 <= i < r.len() ==> r[i] < k,
                forall|i: int| 0 <= i < pos ==> stamps@[r[i] as int] >= stamps@[k as int],
            decreases r.len() - pos,
        {
            pos = pos + 1;
        }
        let ghost old_r = r@;
        r.insert(pos, k);
        proof {
            assert(r@ == old_r.insert(pos as int, k));
            assert forall|i: int, j: int| 0 <= i < j < r.len() implies newer_first(stamps@, r[i] as int, r[j] as int) by {
                if i < pos && j < pos {
                    assert(r[i] == old_r[i] && r[j] == old_r[j]);
                } else if i < pos && j == pos {
                    assert(r[i] == old_r[i]);
                } else if i < pos {
                    assert(r[i] == old_r[i] && r[j] == old_r[j - 1]);
                } else if i == pos {
                    assert(r[j] == old_r[j - 1]);
                    assert(newer_first(stamps@, old_r[pos as int] as int, old_r[j - 1] as int) || j - 1 == pos);
                } else {
                    assert(r[i] == old_r[i - 1] && r[j] == old_r[j - 1]);
                }
            }
        }
        k = k + 1;
    }
    r
}

// ---------------------------------------------------------------------------
// Reading back what was written
// ---------------------------------------------------------------------------

/// Text that can stand on a line of its own and be read back unchanged: no
/// line ending inside, and no carriage return at its end.
pub open spec fn line_safe(s: Seq<char>) -> bool {
    &&& !s.contains('\n')
    &&& (s.len() > 0 ==> s.last() != '\r')
}

pub(crate) proof fn lemma_decimal_reads_back(n: nat)
    ensures
        decimal(n).len() > 0,
        all_digits(decimal(n)),
        digits_value(decimal(n)) == n,
    decreases n,
{
    let r = (n % 10) as int;
    assert(digit_char(r) as int == 48 + r);
    if n < 10 {
        let d = decimal(n);
        assert(d.drop_last() =~= Seq::<char>::empty());
        assert(d.last() == digit_char(n as int));
        assert(n % 10 == n);
        assert(digits_value(d) == digits_value(d.drop_last()) * 10 + ((d.last() as int - 48) as nat));
        assert(digits_value(Seq::<char>::empty()) == 0);
    } else {
        lemma_decimal_reads_back(n / 10);
        let d = decimal(n);
        assert(d.drop_last() =~= decimal(n / 10));
        assert(d.last() == digit_char(r));
        assert((n / 10) * 10 + r == n);
        assert(digits_value(d) == digits_value(d.drop_last()) * 10 + ((d.last() as int - 48) as nat));
        assert forall|i: int| 0 <= i < d.len() implies '0' <= #[trigger] d[i] <= '9' by {
            if i < d.len() - 1 {
                assert(d[i] == decimal(n / 10)[i]);
            }
        }
    }
}

/// A timestamp written in decimal reads back as itself.
proof fn lemma_timestamp_reads_back(ts: u64)
    ensures
        parse_u64_spec(decimal(ts as nat)) == Some(ts as int),
{
    lemma_decimal_reads_back(ts as nat);
    let d = decimal(ts as nat);
    if ts < 10 {
        assert(d[0] != '+');
    } else {
        assert(d[0] == decimal((ts / 10) as nat)[0]) by {
            assert(d.drop_last() =~= decimal((ts / 10) as nat));
        }
        assert('0' <= d[0] <= '9');
    }
}

/// A line followed by a line ending, then more text, reads as that line
/// followed by the lines of the rest.
proof fn lemma_lines_cons(line: Seq<char>, rest: Seq<char>)
    requires
        line_safe(line),
    ensures
        lines(line + "\n"@ + rest) == Seq::empty().push(line) + lines(rest),
{
    reveal_strlit("\n");
    let s = line + "\n"@ + rest;
    assert forall|k: int| 0 <= k < line.len() implies s[k] != '\n' by {
        assert(s[k] == line[k]);
        assert(line.contains(line[k]));
    }
    assert(s[line.len() as int] == '\n');
    lemma_char_pos(s, '\n', line.len() as int);
    assert(s.subrange(0, line.len() as int) =~= line);
    assert(s.subrange(line.len() as int + 1, s.len() as int) =~= rest);
}

proof fn lemma_terminated_front(items: Seq<Seq<char>>)
    requires
        items.len() > 0,
    ensures
        terminated(items) == items[0] + "\n"@ + terminated(items.drop_first()),
    decreases items.len(),
{
    if items.len() == 1 {
        assert(items.drop_last() =~= Seq::<Seq<char>>::empty());
        assert(items.drop_first() =~= Seq::<Seq<char>>::empty());
        assert(terminated(Seq::<Seq<char>>::empty()) == Seq::<char>::empty());
        assert(items.last() == items[0]);
        assert(terminated(items) == terminated(items.drop_last()) + items.last() + "\n"@);
        assert(terminated(items) =~= items[0] + "\n"@ + Seq::<char>::empty());
    } else {
        lemma_terminated_front(items.drop_last());
        assert(items.drop_last().drop_first() =~= items.drop_first().drop_last());
        assert(items.drop_first().last() == items.last());
        assert(items.drop_last()[0] == items[0]);
        assert(terminated(items) =~= items[0] + "\n"@ + terminated(items.drop_first()));
    }
}

proof fn lemma_terminated_lines(items: Seq<Seq<char>>)
    requires
        forall|i: int| 0 <= i < items.len() ==> line_safe(#[trigger] items[i]),
    ensures
        lines(terminated(items)) == items,
    decreases items.len(),
{
    if items.len() > 0 {
        lemma_terminated_front(items);
        assert(line_safe(items[0]));
        assert forall|i: int| 0 <= i < items.drop_first().len() implies line_safe(#[trigger] items.drop_first()[i]) by {
            assert(items.drop_first()[i] == items[i + 1]);
        }
        lemma_terminated_lines(items.drop_first());
        lemma_lines_cons(items[0], terminated(items.drop_first()));
        assert(Seq::empty().push(items[0]) + items.drop_first() =~= items);
    }
}

/// A saved schedule reads back as it was written: the file named by its
/// save time gives back its name, that time, its school and term, and its
/// class identifiers (empty identifiers, which leave blank lines, are
/// skipped; an empty school or term reads back as unset).
pub proof fn lemma_save_reads_back(
    name: Seq<char>,
    timestamp: u64,
    school_id: Option<Seq<char>>,
    term_id: Option<Seq<char>>,
    class_ids: Seq<Seq<char>>,
)
    requires
        line_safe(name),
        line_safe(or_empty(school_id)),
        line_safe(or_empty(term_id)),
        forall|i: int| 0 <= i < class_ids.len() ==> line_safe(#[trigger] class_ids[i]),
    ensures
        read_outcome(save_text(name, school_id, term_id, class_ids), Some(decimal(timestamp as nat))) == Ok::<
            SaveFileV,
            Seq<char>,
        >(
            SaveFileV {
                name,
                timestamp: timestamp as int,
                school_id: line_value(or_empty(school_id)),
                term_id: line_value(or_empty(term_id)),
                class_ids: nonempty(class_ids),
            },
        ),
{
    let body = terminated(class_ids);
    let t3 = or_empty(term_id) + "\n"@ + body;
    let t2 = or_empty(school_id) + "\n"@ + t3;
    let t1 = name + "\n"@ + t2;
    assert(save_text(name, school_id, term_id, class_ids) =~= t1);
    lemma_terminated_lines(class_ids);
    lemma_lines_cons(or_empty(term_id), body);
    lemma_lines_cons(or_empty(school_id), t3);
    lemma_lines_cons(name, t2);
    let ls = lines(t1);
    assert(ls =~= Seq::empty().push(name).push(or_empty(school_id)).push(or_empty(term_id)) + class_ids);
    assert(ls.subrange(3, ls.len() as int) =~= class_ids);
    lemma_timestamp_reads_back(timestamp);
}

} // verus!
