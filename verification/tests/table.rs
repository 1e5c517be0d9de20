use canvas_cli::data::Account;
use canvas_cli::data::ValidAssignment;
use canvas_cli::data::ValidCourse;
use canvas_cli::table::account_lines;
use canvas_cli::table::assignment_header;
use canvas_cli::table::assignment_row;
use canvas_cli::table::course_header;
use canvas_cli::table::course_row;
use canvas_cli::table::pad_right;

#[test]
fn pad_fills_with_spaces_on_the_right() {
    assert_eq!(pad_right("ab", 5), "ab   ");
    assert_eq!(pad_right("", 3), "   ");
    assert_eq!(pad_right("abc", 3), "abc");
}

#[test]
fn pad_keeps_wider_text_whole() {
    assert_eq!(pad_right("abcdef", 3), "abcdef");
    assert_eq!(pad_right("abc", 0), "abc");
    assert_eq!(pad_right("", 0), "");
}

#[test]
fn pad_counts_characters_not_bytes() {
    assert_eq!(pad_right("äö", 4), "äö  ");
    assert_eq!(pad_right("数学", 3), "数学 ");
}

#[test]
fn pad_agrees_with_the_formatter() {
    for text in ["", "a", "Algebra", "äöü", "a text that is longer than its column"].iter() {
        assert_eq!(pad_right(text, 10), format!("{0: <10}", text));
        assert_eq!(pad_right(text, 25), format!("{0: <25}", text));
        assert_eq!(pad_right(text, 50), format!("{0: <50}", text));
    }
}

#[test]
fn course_table_lines() {
    let header = course_header();
    assert_eq!(
        format!("{} {} {}", header.first, header.second, header.third),
        format!("{0: <25} {1: <50} {2: <10}", "Course Code", "Course Name", "Course ID")
    );
    let course = ValidCourse::new("Algebra".to_string(), "MA101".to_string(), 1);
    let row = course_row(&course);
    assert_eq!(row.first, format!("{0: <25}", "Algebra"));
    assert_eq!(row.second, format!("{0: <50}", "MA101"));
    assert_eq!(row.third, "1         ");
}

#[test]
fn assignment_table_lines() {
    let header = assignment_header();
    assert_eq!(
        format!("{} {} {}", header.first, header.second, header.third),
        format!("{0: <40} {1: <20} {2: <10}", "Assignment Name", "Due Date", "Assignment ID")
    );
    let assignment = ValidAssignment::new("Essay".to_string(), -42, "05-01-2024".to_string());
    let row = assignment_row(&assignment);
    assert_eq!(row.first, format!("{0: <40}", "Essay"));
    assert_eq!(row.second, "05-01-2024          ");
    assert_eq!(row.third, "-42       ");
}

#[test]
fn long_identifier_is_not_cut() {
    let course = ValidCourse::new("A".to_string(), "B".to_string(), i64::MIN);
    assert_eq!(course_row(&course).third, "-9223372036854775808");
}

#[test]
fn account_is_shown_in_four_lines() {
    let account = Account {
        id: 77,
        name: "Ada Lovelace".to_string(),
        created_at: "2020-01-02T03:04:05Z".to_string(),
        ..Default::default()
    };
    assert_eq!(
        account_lines(&account),
        vec![
            "Account Info:".to_string(),
            "Name: Ada Lovelace".to_string(),
            "ID: 77".to_string(),
            "Date Created: 2020-01-02T03:04:05Z".to_string(),
        ]
    );
}
