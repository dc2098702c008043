use classql::data::display::{format_day_for_display, format_for_display, format_meeting_line, get_day_order, ClassDisplay};

fn class(title: &str, professor: Option<&str>, days: &str, times: Option<&str>, enrolled: Option<i32>, max: Option<i32>) -> ClassDisplay {
    ClassDisplay {
        subject_code: "CS".to_string(),
        course_number: "101".to_string(),
        section_sequence: "001".to_string(),
        title: title.to_string(),
        professor_name: professor.map(|p| p.to_string()),
        days: days.to_string(),
        meeting_times: times.map(|t| t.to_string()),
        enrollment: enrolled,
        max_enrollment: max,
    }
}

#[test]
fn cell_with_all_fields() {
    let c = class("Intro to Programming", Some("Ada Lovelace"), "MW", Some("M:08:00:00-10:45:00|W:13:00:00-14:15:00"), Some(25), Some(30));
    assert_eq!(
        format_for_display(&c),
        vec!["CS 101-001", "Intro to Programming", "Ada Lovelace", "M 8:00am-10:45am, W 1:00pm-2:15pm", "25/30 enrolled"]
    );
}

#[test]
fn cell_cuts_long_title_and_professor() {
    let c = class("Advanced Topics in Distributed Systems", Some("Professor Bartholomew Higgins"), "F", None, None, None);
    let lines = format_for_display(&c);
    assert_eq!(lines[1], "Advanced Topics in Dis...");
    assert_eq!(lines[2], "Professor Barthol...");
    assert_eq!(lines[3], "F TBA");
    assert_eq!(lines.len(), 4);
}

#[test]
fn cell_keeps_texts_at_the_limit() {
    let title = "a".repeat(25);
    let prof = "b".repeat(20);
    let c = class(&title, Some(&prof), "", None, Some(3), None);
    let lines = format_for_display(&c);
    assert_eq!(lines[1], title);
    assert_eq!(lines[2], prof);
    assert_eq!(lines[3], " TBA");
    assert_eq!(lines.len(), 4);
}

#[test]
fn cell_cuts_by_characters() {
    let title = "é".repeat(26);
    let c = class(&title, None, "TTH", None, None, None);
    let lines = format_for_display(&c);
    assert_eq!(lines[1], format!("{}...", "é".repeat(22)));
    assert_eq!(lines[2], "TBA");
}

#[test]
fn meetings_sorted_monday_first() {
    let line = format_meeting_line("MTHF", &Some("F:09:00:00-09:50:00|TH:12:00:00-13:15:00|M:08:00:00-08:50:00".to_string()));
    assert_eq!(line, "M 8:00am-8:50am, TH 12:00pm-1:15pm, F 9:00am-9:50am");
}

#[test]
fn meetings_of_equal_day_keep_their_order() {
    let line = format_meeting_line("TTH", &Some("TTH:11:00:00-12:15:00|T:08:00:00-09:00:00".to_string()));
    assert_eq!(line, "T TH 11:00am-12:15pm, T 8:00am-9:00am");
}

#[test]
fn unreadable_meetings_give_tba() {
    assert_eq!(format_meeting_line("MW", &Some("no times here|:08:00-09:00|M:0800".to_string())), "MW TBA");
    assert_eq!(format_meeting_line("MW", &None), "MW TBA");
    assert_eq!(format_meeting_line("MW", &Some("x|SU:10:00:00-11:00:00".to_string())), "SU 10:00am-11:00am");
}

#[test]
fn day_codes_and_order() {
    assert_eq!(format_day_for_display("MWF"), "M W F");
    assert_eq!(format_day_for_display("TTH"), "T TH");
    assert_eq!(format_day_for_display("SSU"), "S SU");
    assert_eq!(format_day_for_display(""), "");
    assert_eq!(get_day_order("M"), 0);
    assert_eq!(get_day_order("T"), 1);
    assert_eq!(get_day_order("W"), 2);
    assert_eq!(get_day_order("TH"), 3);
    assert_eq!(get_day_order("F"), 4);
    assert_eq!(get_day_order("S"), 5);
    assert_eq!(get_day_order("SU"), 6);
    assert_eq!(get_day_order("X"), 7);
    assert_eq!(get_day_order("MW"), 7);
}

#[test]
fn enrollment_line_with_negative_and_large_numbers() {
    let c = class("T", None, "M", None, Some(-1), Some(2147483647));
    assert_eq!(format_for_display(&c)[4], "-1/2147483647 enrolled");
}
