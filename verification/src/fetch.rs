//! The three read-only operations: the requests they send, and the
//! listings that the answers are projected to.
//!
//! A listing keeps, in the server's order, the records that have every
//! field the listing shows, and drops the others without an error.

use crate::data::Assignment;
use crate::data::AssignmentView;
use crate::data::text_of;
use crate::data::Course;
use crate::data::CourseView;
use crate::data::ValidAssignment;
use crate::data::ValidAssignmentView;
use crate::data::ValidCourse;
use crate::data::ValidCourseView;
use crate::session::Credentials;
use crate::text::i64_to_decimal;
use crate::text::signed_decimal;
use crate::transport::get_request;
use crate::transport::get_spec;
use crate::transport::Request;
use crate::transport::TransportError;
use vstd::prelude::*;
use vstd::string::StringExecFns;

verus! {

/// The pattern by which a due date is shown: month, day, year.
pub const DATE_PATTERN: &'static str = "%m-%d-%Y";

/// The address of the signed-in user's account.
pub open spec fn account_url(base: Seq<char>) -> Seq<char> {
    base + "/api/v1/users/self"@
}

/// The address of the course list.
pub open spec fn courses_url(base: Seq<char>) -> Seq<char> {
    base + "/api/v1/courses"@
}

/// The address of the assignment list of the course `course_id`.
pub open spec fn assignments_url(base: Seq<char>, course_id: i64) -> Seq<char> {
    base + "/api/v1/courses/"@ + signed_decimal(course_id as int) + "/assignments"@
}

/// Builds the request for the signed-in user's account.
pub fn account_request(credentials: &Credentials) -> (request: Request)
    ensures
        request@ == get_spec(account_url(credentials@.base_url), credentials@.bearer_token),
{
    let url = String::from_str(credentials.base_url.as_str()).concat("/api/v1/users/self");
    get_request(url, credentials.bearer_token.as_str())
}

/// Builds the request for the course list.
pub fn courses_request(credentials: &Credentials) -> (request: Request)
    ensures
        request@ == get_spec(courses_url(credentials@.base_url), credentials@.bearer_token),
{
    let url = String::from_str(credentials.base_url.as_str()).concat("/api/v1/courses");
    get_request(url, credentials.bearer_token.as_str())
}

/// Builds the request for the assignment list of one course.
pub fn assignments_request(credentials: &Credentials, course_id: i64) -> (request: Request)
    ensures
        request@ == get_spec(
            assignments_url(credentials@.base_url, course_id),
            credentials@.bearer_token,
        ),
{
    let mut url = String::from_str(credentials.base_url.as_str());
    url.append("/api/v1/courses/");
    url.append(i64_to_decimal(course_id).as_str());
    url.append("/assignments");
    get_request(url, credentials.bearer_token.as_str())
}

/// The listing entry of one course: there is one when the course has both
/// a name and a course code.
pub open spec fn listed_course(course: CourseView) -> Option<ValidCourseView> {
    match (course.name, course.course_code) {
        (Some(name), Some(course_code)) => Some(
            ValidCourseView { name, course_code, id: course.id },
        ),
        _ => None,
    }
}

/// [`listed_course`] as a function of the record.
pub open spec fn course_lister() -> spec_fn(Course) -> Option<ValidCourseView> {
    |course: Course| listed_course(course@)
}

/// The course listing: the entries of the courses that have one, in order.
pub open spec fn course_listing(raw: Seq<Course>) -> Seq<ValidCourseView> {
    raw.filter_map(course_lister())
}

/// The views of a list of listed courses.
pub open spec fn valid_course_views(listing: Seq<ValidCourse>) -> Seq<ValidCourseView> {
    listing.map_values(|course: ValidCourse| course@)
}

/// Projects the courses that the server sent to the course listing.
pub fn project_courses(raw: &Vec<Course>) -> (listing: Vec<ValidCourse>)
    ensures
        valid_course_views(listing@) == course_listing(raw@),
{
    let mut listing: Vec<ValidCourse> = Vec::new();
    let mut i: usize = 0;
    assert(raw@.take(0).filter_map(course_lister()) =~= Seq::empty());
    while i < raw.len()
        invariant
            i <= raw@.len(),
            valid_course_views(listing@) =~= course_listing(raw@.take(i as int)),
        decreases raw@.len() - i,
    {
        proof {
            raw@.lemma_filter_map_take_succ(course_lister(), i as int);
        }
        let course = &raw[i];
        match (&course.name, &course.course_code) {
            (Some(name), Some(course_code)) => {
                listing.push(ValidCourse::new(name.clone(), course_code.clone(), course.id));
            },
            _ => {},
        }
        i += 1;
    }
    assert(raw@.take(raw@.len() as int) =~= raw@);
    listing
}

/// The text that chrono's `DateTime::parse_from_rfc3339` followed by
/// `format(pattern).to_string()` gives for `timestamp`, `None` when the
/// timestamp does not parse.
pub uninterp spec fn rfc3339_formatted(timestamp: Seq<char>, pattern: Seq<char>) -> Option<
    Seq<char>,
>;

/// The month, day and year digits of a timestamp that starts with
/// `YYYY-MM-DD`, rearranged to `MM-DD-YYYY`.
pub open spec fn month_day_year(timestamp: Seq<char>) -> Seq<char> {
    timestamp.subrange(5, 7) + seq!['-'] + timestamp.subrange(8, 10) + seq!['-']
        + timestamp.subrange(0, 4)
}

/// Parses `timestamp` with chrono's `DateTime::parse_from_rfc3339` and
/// formats the result with `DateTime::format`.
///
/// The contract is believed, not proved. It names the result, and says of a
/// successful call what chrono's parser and its `%m`, `%d` and `%Y` items
/// show: the timestamp has at least the nineteen characters of
/// `YYYY-MM-DDThh:mm:ss`, and the text is made of its own date digits, since
/// the date is formatted at the offset that the timestamp itself carries.
#[verifier::external_body]
fn format_rfc3339(timestamp: &str, pattern: &str) -> (formatted: Option<String>)
    requires
        pattern@ == DATE_PATTERN@,
    ensures
        text_of(formatted) == rfc3339_formatted(timestamp@, pattern@),
        formatted matches Some(text) ==> timestamp@.len() >= 19 && text@ == month_day_year(
            timestamp@,
        ),
{
    match chrono::DateTime::parse_from_rfc3339(timestamp) {
        Ok(moment) => Some(moment.format(pattern).to_string()),
        Err(_) => None,
    }
}

/// The display form of a due date, `None` when it is not an RFC 3339
/// timestamp.
pub open spec fn display_date(due_at: Seq<char>) -> Option<Seq<char>> {
    rfc3339_formatted(due_at, DATE_PATTERN@)
}

/// Whether every due date that is present is an RFC 3339 timestamp.
pub open spec fn well_dated(raw: Seq<Assignment>) -> bool {
    forall|i: int|
        0 <= i < raw.len() ==> ((#[trigger] raw[i]).due_at matches Some(due) ==> display_date(
            due@,
        ) is Some)
}

/// Whether every due date that is present is shown as its own month, day
/// and year digits.
pub open spec fn dates_rearranged(raw: Seq<Assignment>) -> bool {
    forall|i: int|
        0 <= i < raw.len() ==> ((#[trigger] raw[i]).due_at matches Some(due) ==> due@.len() >= 19
            && display_date(due@) == Some(month_day_year(due@)))
}

/// The listing entry of an assignment whose due date is shown as
/// `due_display`: there is one when the assignment has both a name and an
/// identifier.
pub open spec fn listed_with_date(assignment: AssignmentView, due_display: Seq<char>) -> Option<
    ValidAssignmentView,
> {
    match (assignment.name, assignment.id) {
        (Some(name), Some(id)) => Some(ValidAssignmentView { name, id, due_at: due_display }),
        _ => None,
    }
}

/// The listing entry of one assignment: there is one when the assignment
/// has a due date that can be shown, a name and an identifier.
pub open spec fn listed_assignment(assignment: AssignmentView) -> Option<ValidAssignmentView> {
    match assignment.due_at {
        Some(due) => match display_date(due) {
            Some(due_display) => listed_with_date(assignment, due_display),
            None => None,
        },
        None => None,
    }
}

/// [`listed_assignment`] as a function of the record.
pub open spec fn assignment_lister() -> spec_fn(Assignment) -> Option<ValidAssignmentView> {
    |assignment: Assignment| listed_assignment(assignment@)
}

/// The assignment listing: the entries of the assignments that have one,
/// in order.
pub open spec fn assignment_listing(raw: Seq<Assignment>) -> Seq<ValidAssignmentView> {
    raw.filter_map(assignment_lister())
}

/// The views of a list of listed assignments.
pub open spec fn valid_assignment_views(listing: Seq<ValidAssignment>) -> Seq<
    ValidAssignmentView,
> {
    listing.map_values(|assignment: ValidAssignment| assignment@)
}

/// The view of an optional listed assignment.
pub open spec fn entry_view(entry: Option<ValidAssignment>) -> Option<ValidAssignmentView> {
    match entry {
        Some(assignment) => Some(assignment@),
        None => None,
    }
}

/// Builds the listing entry of `assignment` from the display form of its
/// due date.
pub fn with_due_date(assignment: &Assignment, due_display: String) -> (entry: Option<
    ValidAssignment,
>)
    ensures
        entry_view(entry) == listed_with_date(assignment@, due_display@),
{
    match (&assignment.name, assignment.id) {
        (Some(name), Some(id)) => Some(ValidAssignment::new(name.clone(), id, due_display)),
        _ => None,
    }
}

/// Projects the assignments that the server sent to the assignment
/// listing. A due date that is present and is not an RFC 3339 timestamp
/// makes the whole answer malformed.
pub fn project_assignments(raw: &Vec<Assignment>) -> (r: Result<
    Vec<ValidAssignment>,
    TransportError,
>)
    ensures
        r is Ok <==> well_dated(raw@),
        r is Ok ==> dates_rearranged(raw@),
        r matches Ok(listing) ==> valid_assignment_views(listing@) == assignment_listing(raw@),
        r matches Err(e) ==> e == TransportError::MalformedResponse,
{
    let mut listing: Vec<ValidAssignment> = Vec::new();
    let mut i: usize = 0;
    assert(raw@.take(0).filter_map(assignment_lister()) =~= Seq::empty());
    while i < raw.len()
        invariant
            i <= raw@.len(),
            well_dated(raw@.take(i as int)),
            dates_rearranged(raw@.take(i as int)),
            valid_assignment_views(listing@) =~= assignment_listing(raw@.take(i as int)),
        decreases raw@.len() - i,
    {
        proof {
            raw@.lemma_filter_map_take_succ(assignment_lister(), i as int);
        }
        let assignment = &raw[i];
        let ghost before = raw@.take(i as int);
        let ghost after = raw@.take(i + 1);
        match &assignment.due_at {
            Some(due) => {
                match format_rfc3339(due.as_str(), DATE_PATTERN) {
                    Some(due_display) => {
                        match with_due_date(assignment, due_display) {
                            Some(entry) => {
                                listing.push(entry);
                            },
                            None => {},
                        }
                    },
                    None => {
                        assert(raw@[i as int].due_at == Some(*due));
                        return Err(TransportError::MalformedResponse);
                    },
                }
            },
            None => {},
        }
        assert(well_dated(after) && dates_rearranged(after)) by {
            assert forall|k: int| 0 <= k < after.len() implies ((#[trigger] after[k]).due_at matches Some(
                due,
            ) ==> due@.len() >= 19 && display_date(due@) == Some(month_day_year(due@))) by {
                if k < i {
                    assert(after[k] == before[k]);
                }
            }
        }
        i += 1;
    }
    assert(raw@.take(raw@.len() as int) =~= raw@);
    Ok(listing)
}

/// Where an entry stands: the entries of the first `i` records are the first
/// entries of the whole listing.
proof fn lemma_filter_map_prefix<A, B>(s: Seq<A>, f: spec_fn(A) -> Option<B>, i: int)
    requires
        0 <= i <= s.len(),
    ensures
        s.take(i).filter_map(f).len() <= s.filter_map(f).len(),
        s.filter_map(f).take(s.take(i).filter_map(f).len() as int) == s.take(i).filter_map(f),
    decreases s.len() - i,
{
    if i == s.len() {
        assert(s.take(i) =~= s);
        assert(s.filter_map(f).take(s.filter_map(f).len() as int) =~= s.filter_map(f));
    } else {
        s.lemma_filter_map_take_succ(f, i);
        lemma_filter_map_prefix(s, f, i + 1);
        let shorter = s.take(i).filter_map(f);
        let longer = s.take(i + 1).filter_map(f);
        assert(longer.take(shorter.len() as int) =~= shorter);
        assert(s.filter_map(f).take(shorter.len() as int) =~= s.filter_map(f).take(
            longer.len() as int,
        ).take(shorter.len() as int));
    }
}

/// A record without an entry can be taken out of the list, and the listing
/// stays the same.
proof fn lemma_filter_map_remove<A, B>(s: Seq<A>, f: spec_fn(A) -> Option<B>, i: int)
    requires
        0 <= i < s.len(),
        f(s[i]) is None,
    ensures
        s.remove(i).filter_map(f) == s.filter_map(f),
    decreases s.len(),
{
    if i == s.len() - 1 {
        assert(s.remove(i) =~= s.drop_last());
    } else {
        lemma_filter_map_remove(s.drop_last(), f, i);
        assert(s.remove(i).drop_last() =~= s.drop_last().remove(i));
        assert(s.remove(i).last() == s.last());
    }
}

/// The course listing is exactly the subsequence of the courses that have a
/// name and a course code, in the server's order: the entry of such a
/// course stands at the position that counts the listed courses before it,
/// and a course that lacks either adds no entry.
pub proof fn lemma_course_listing_is_subsequence(raw: Seq<Course>, i: int)
    requires
        0 <= i < raw.len(),
    ensures
        course_listing(raw.take(i)).len() <= course_listing(raw).len(),
        course_listing(raw.take(i + 1)).len() <= course_listing(raw).len(),
        match listed_course(raw[i]@) {
            Some(entry) => {
                &&& course_listing(raw.take(i + 1)).len() == course_listing(raw.take(i)).len() + 1
                &&& course_listing(raw)[course_listing(raw.take(i)).len() as int] == entry
            },
            None => course_listing(raw.take(i + 1)).len() == course_listing(raw.take(i)).len(),
        },
{
    lemma_filter_map_prefix(raw, course_lister(), i);
    lemma_filter_map_prefix(raw, course_lister(), i + 1);
    raw.lemma_filter_map_take_succ(course_lister(), i);
    let k = course_listing(raw.take(i)).len() as int;
    if listed_course(raw[i]@) is Some {
        assert(course_listing(raw).take(k + 1)[k] == course_listing(raw.take(i + 1))[k]);
    }
}

/// The course listing invents nothing: each of its entries is the entry of
/// one of the courses that the server sent.
pub proof fn lemma_course_listing_invents_nothing(raw: Seq<Course>, k: int)
    requires
        0 <= k < course_listing(raw).len(),
    ensures
        exists|i: int|
            0 <= i < raw.len() && listed_course((#[trigger] raw[i])@) == Some(
                course_listing(raw)[k],
            ),
{
    let entry = course_listing(raw)[k];
    assert(course_listing(raw).contains(entry));
    raw.lemma_filter_map_contains(course_lister(), entry);
    let course = choose|course: Course| #[trigger]
        raw.contains(course) && course_lister()(course) == Some(entry);
    let i = choose|i: int| 0 <= i < raw.len() && raw[i] == course;
    assert(listed_course(raw[i]@) == Some(entry));
}

/// The course listing holds nothing of a course that lacks a name or a
/// course code: without that course in the answer it would be the same.
pub proof fn lemma_unlisted_course_is_dropped(raw: Seq<Course>, i: int)
    requires
        0 <= i < raw.len(),
        raw[i].name is None || raw[i].course_code is None,
    ensures
        course_listing(raw.remove(i)) == course_listing(raw),
{
    lemma_filter_map_remove(raw, course_lister(), i);
}

/// An assignment without a due date is left out of the listing whatever its
/// other fields hold: without it in the answer the listing would be the
/// same.
pub proof fn lemma_undated_assignment_is_excluded(raw: Seq<Assignment>, i: int)
    requires
        0 <= i < raw.len(),
        raw[i].due_at is None,
    ensures
        assignment_listing(raw.remove(i)) == assignment_listing(raw),
{
    lemma_filter_map_remove(raw, assignment_lister(), i);
}

} // verus!
