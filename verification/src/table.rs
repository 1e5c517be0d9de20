//! The lines and the table cells that an account and the two listings are
//! shown as. A cell is its text, filled with spaces on the right up to the
//! width of its column; a text that is wider stays whole.

use crate::data::Account;
use crate::data::ValidAssignment;
use crate::data::ValidAssignmentView;
use crate::data::ValidCourse;
use crate::data::ValidCourseView;
use crate::text::i64_to_decimal;
use crate::text::signed_decimal;
use vstd::prelude::*;
use vstd::string::StrSliceExecFns;
use vstd::string::StringExecFns;

verus! {

/// The width of the first column of the course table.
pub const COURSE_FIRST_WIDTH: usize = 25;

/// The width of the second column of the course table.
pub const COURSE_SECOND_WIDTH: usize = 50;

/// The width of the first column of the assignment table.
pub const ASSIGNMENT_FIRST_WIDTH: usize = 40;

/// The width of the second column of the assignment table.
pub const ASSIGNMENT_SECOND_WIDTH: usize = 20;

/// The width of the last column of both tables, which holds identifiers.
pub const ID_WIDTH: usize = 10;

/// The three cells of one table line.
#[derive(Debug, Clone, PartialEq, Eq)]
pub struct Row {
    pub first: String,
    pub second: String,
    pub third: String,
}

impl View for Row {
    type V = (Seq<char>, Seq<char>, Seq<char>);

    open spec fn view(&self) -> (Seq<char>, Seq<char>, Seq<char>) {
        (self.first@, self.second@, self.third@)
    }
}

/// `n` spaces.
pub open spec fn spaces(n: nat) -> Seq<char> {
    Seq::new(n, |i: int| ' ')
}

/// `text`, filled with spaces on the right up to `width` characters.
pub open spec fn padded(text: Seq<char>, width: nat) -> Seq<char> {
    if text.len() >= width {
        text
    } else {
        text + spaces((width - text.len()) as nat)
    }
}

/// The cells of three texts in columns of the given widths.
pub open spec fn row_spec(
    texts: (Seq<char>, Seq<char>, Seq<char>),
    first_width: nat,
    second_width: nat,
) -> (Seq<char>, Seq<char>, Seq<char>) {
    (
        padded(texts.0, first_width),
        padded(texts.1, second_width),
        padded(texts.2, ID_WIDTH as nat),
    )
}

/// The line of the course table that shows `course`: name, course code,
/// identifier.
pub open spec fn course_row_spec(course: ValidCourseView) -> (Seq<char>, Seq<char>, Seq<char>) {
    row_spec(
        (course.name, course.course_code, signed_decimal(course.id as int)),
        COURSE_FIRST_WIDTH as nat,
        COURSE_SECOND_WIDTH as nat,
    )
}

/// The line of the assignment table that shows `assignment`: name, due
/// date, identifier.
pub open spec fn assignment_row_spec(assignment: ValidAssignmentView) -> (
    Seq<char>,
    Seq<char>,
    Seq<char>,
) {
    row_spec(
        (assignment.name, assignment.due_at, signed_decimal(assignment.id as int)),
        ASSIGNMENT_FIRST_WIDTH as nat,
        ASSIGNMENT_SECOND_WIDTH as nat,
    )
}

/// Fills `text` with spaces on the right up to `width` characters.
pub fn pad_right(text: &str, width: usize) -> (cell: String)
    ensures
        cell@ == padded(text@, width as nat),
{
    let mut cell = String::from_str(text);
    let start = text.unicode_len();
    let mut length: usize = start;
    assert(cell@ =~= text@ + spaces(0));
    while length < width
        invariant
            start == text@.len(),
            start <= length,
            length == start || length <= width,
            cell@ == text@ + spaces((length - start) as nat),
        decreases width - length,
    {
        proof {
            reveal_strlit(" ");
        }
        cell.append(" ");
        assert(cell@ =~= text@ + spaces((length + 1 - start) as nat));
        length += 1;
    }
    assert(start >= width ==> cell@ =~= text@);
    cell
}

/// Lays three texts out in columns of the given widths.
fn row(first: &str, first_width: usize, second: &str, second_width: usize, third: &str) -> (line:
    Row)
    ensures
        line@ == row_spec((first@, second@, third@), first_width as nat, second_width as nat),
{
    Row {
        first: pad_right(first, first_width),
        second: pad_right(second, second_width),
        third: pad_right(third, ID_WIDTH),
    }
}

/// The heading of the course table.
pub fn course_header() -> (line: Row)
    ensures
        line@ == row_spec(
            ("Course Code"@, "Course Name"@, "Course ID"@),
            COURSE_FIRST_WIDTH as nat,
            COURSE_SECOND_WIDTH as nat,
        ),
{
    row("Course Code", COURSE_FIRST_WIDTH, "Course Name", COURSE_SECOND_WIDTH, "Course ID")
}

/// The line of the course table that shows `course`.
pub fn course_row(course: &ValidCourse) -> (line: Row)
    ensures
        line@ == course_row_spec(course@),
{
    let id = i64_to_decimal(course.id);
    row(
        course.name.as_str(),
        COURSE_FIRST_WIDTH,
        course.course_code.as_str(),
        COURSE_SECOND_WIDTH,
        id.as_str(),
    )
}

/// The heading of the assignment table.
pub fn assignment_header() -> (line: Row)
    ensures
        line@ == row_spec(
            ("Assignment Name"@, "Due Date"@, "Assignment ID"@),
            ASSIGNMENT_FIRST_WIDTH as nat,
            ASSIGNMENT_SECOND_WIDTH as nat,
        ),
{
    row(
        "Assignment Name",
        ASSIGNMENT_FIRST_WIDTH,
        "Due Date",
        ASSIGNMENT_SECOND_WIDTH,
        "Assignment ID",
    )
}

/// The line of the assignment table that shows `assignment`.
pub fn assignment_row(assignment: &ValidAssignment) -> (line: Row)
    ensures
        line@ == assignment_row_spec(assignment@),
{
    let id = i64_to_decimal(assignment.id);
    row(
        assignment.name.as_str(),
        ASSIGNMENT_FIRST_WIDTH,
        assignment.due_at.as_str(),
        ASSIGNMENT_SECOND_WIDTH,
        id.as_str(),
    )
}

/// The four lines that show an account: a heading, the name, the
/// identifier, and the date of creation as the server sent it.
pub open spec fn account_lines_spec(name: Seq<char>, id: i64, created_at: Seq<char>) -> Seq<
    Seq<char>,
> {
    seq![
        "Account Info:"@,
        "Name: "@ + name,
        "ID: "@ + signed_decimal(id as int),
        "Date Created: "@ + created_at,
    ]
}

/// Builds the lines that show `account`.
pub fn account_lines(account: &Account) -> (lines: Vec<String>)
    ensures
        lines@.map_values(|line: String| line@) == account_lines_spec(
            account.name@,
            account.id,
            account.created_at@,
        ),
{
    let mut lines: Vec<String> = Vec::new();
    lines.push(String::from_str("Account Info:"));
    lines.push(String::from_str("Name: ").concat(account.name.as_str()));
    lines.push(String::from_str("ID: ").concat(i64_to_decimal(account.id).as_str()));
    lines.push(String::from_str("Date Created: ").concat(account.created_at.as_str()));
    assert(lines@.map_values(|line: String| line@) =~= account_lines_spec(
        account.name@,
        account.id,
        account.created_at@,
    ));
    lines
}

/// A cell is never narrower than its column, always starts with its text,
/// and is the text itself when the text fills the column.
pub proof fn lemma_padded(text: Seq<char>, width: nat)
    ensures
        padded(text, width).len() == if text.len() >= width {
            text.len()
        } else {
            width
        },
        padded(text, width).subrange(0, text.len() as int) == text,
        forall|k: int| text.len() <= k < padded(text, width).len() ==> padded(text, width)[k] == ' ',
{
    assert(padded(text, width).subrange(0, text.len() as int) =~= text);
}

} // verus!
