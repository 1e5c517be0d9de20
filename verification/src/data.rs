//! The records that the client exchanges with the server, and the two
//! listings it shows.
//!
//! A record keeps the fields of the upstream schema that are integers,
//! booleans, text, or records and lists of these. The types that contracts
//! speak of have a view over character sequences.

use vstd::prelude::*;

verus! {

/// The two kinds of record that the client lists.
#[derive(Debug, Clone, Copy, PartialEq, Eq)]
pub enum DataTypes {
    Assignment,
    Course,
}

/// A course that can be listed: one whose name and course code are both known.
#[derive(Debug, Clone, Default, PartialEq, Eq)]
pub struct ValidCourse {
    pub name: String,
    pub course_code: String,
    pub id: i64,
}

/// What a [`ValidCourse`] holds, as character sequences.
pub struct ValidCourseView {
    pub name: Seq<char>,
    pub course_code: Seq<char>,
    pub id: i64,
}

impl View for ValidCourse {
    type V = ValidCourseView;

    open spec fn view(&self) -> ValidCourseView {
        ValidCourseView { name: self.name@, course_code: self.course_code@, id: self.id }
    }
}

impl ValidCourse {
    /// A listed course with the given name, course code and identifier.
    pub fn new(name: String, course_code: String, id: i64) -> (course: ValidCourse)
        ensures
            course.name == name,
            course.course_code == course_code,
            course.id == id,
    {
        ValidCourse { name, course_code, id }
    }
}

/// An assignment that can be listed: one whose identifier, name and due date
/// are all known. `due_at` holds the display date, `MM-DD-YYYY`.
#[derive(Debug, Clone, Default, PartialEq, Eq)]
pub struct ValidAssignment {
    pub name: String,
    pub id: i64,
    pub due_at: String,
}

/// What a [`ValidAssignment`] holds, as character sequences.
pub struct ValidAssignmentView {
    pub name: Seq<char>,
    pub id: i64,
    pub due_at: Seq<char>,
}

impl View for ValidAssignment {
    type V = ValidAssignmentView;

    open spec fn view(&self) -> ValidAssignmentView {
        ValidAssignmentView { name: self.name@, id: self.id, due_at: self.due_at@ }
    }
}

impl ValidAssignment {
    /// A listed assignment with the given name, identifier and display date.
    pub fn new(name: String, id: i64, due_at: String) -> (assignment: ValidAssignment)
        ensures
            assignment.name == name,
            assignment.id == id,
            assignment.due_at == due_at,
    {
        ValidAssignment { name, id, due_at }
    }
}

/// The characters of an optional text.
pub open spec fn text_of(s: Option<String>) -> Option<Seq<char>> {
    match s {
        Some(t) => Some(t@),
        None => None,
    }
}

/// A list of assignments as the server sends it.
#[derive(Debug, Clone, Default, PartialEq, Eq)]
pub struct Assignments {
    pub assignments: Vec<Assignment>,
}

/// The account of the signed-in user.
#[derive(Debug, Clone, Default, PartialEq, Eq)]
pub struct Account {
    pub id: i64,
    pub name: String,
    pub created_at: String,
    pub sortable_name: String,
    pub short_name: String,
    pub avatar_url: String,
    pub effective_locale: String,
    pub permissions: Permissions,
}

/// What the signed-in user may change on the account.
#[derive(Debug, Clone, Default, PartialEq, Eq)]
pub struct Permissions {
    pub can_update_name: bool,
    pub can_update_avatar: bool,
    pub limit_parent_app_web_access: bool,
}

/// A course as the server sends it. Only `id` is always present; a course
/// without a name or without a course code is not listed.
#[derive(Debug, Clone, Default, PartialEq, Eq)]
pub struct Course {
    pub id: i64,
    pub name: Option<String>,
    pub account_id: Option<i64>,
    pub uuid: Option<String>,
    pub start_at: Option<String>,
    pub grading_standard_id: Option<i64>,
    pub is_public: Option<bool>,
    pub created_at: Option<String>,
    pub course_code: Option<String>,
    pub default_view: Option<String>,
    pub root_account_id: Option<i64>,
    pub enrollment_term_id: Option<i64>,
    pub license: Option<String>,
    pub end_at: Option<String>,
    pub public_syllabus: Option<bool>,
    pub public_syllabus_to_auth: Option<bool>,
    pub storage_quota_mb: Option<i64>,
    pub is_public_to_auth_users: Option<bool>,
    pub homeroom_course: Option<bool>,
    pub apply_assignment_group_weights: Option<bool>,
    pub calendar: Option<Calendar>,
    pub time_zone: Option<String>,
    pub blueprint: Option<bool>,
    pub template: Option<bool>,
    pub enrollments: Option<Vec<Enrollment>>,
    pub hide_final_grades: Option<bool>,
    pub workflow_state: Option<String>,
    pub restrict_enrollments_to_course_dates: Option<bool>,
    pub overridden_course_visibility: Option<String>,
    pub course_format: Option<String>,
    pub access_restricted_by_date: Option<bool>,
}

/// The part of a [`Course`] that the course listing reads.
pub struct CourseView {
    pub id: i64,
    pub name: Option<Seq<char>>,
    pub course_code: Option<Seq<char>>,
}

impl View for Course {
    type V = CourseView;

    open spec fn view(&self) -> CourseView {
        CourseView {
            id: self.id,
            name: text_of(self.name),
            course_code: text_of(self.course_code),
        }
    }
}

/// The calendar feed of a course.
#[derive(Debug, Clone, Default, PartialEq, Eq)]
pub struct Calendar {
    pub ics: String,
}

/// How the signed-in user is enrolled in a course.
#[derive(Debug, Clone, Default, PartialEq, Eq)]
pub struct Enrollment {
    pub enrollment_type: String,
    pub role: String,
    pub role_id: i64,
    pub user_id: i64,
    pub enrollment_state: String,
    pub limit_privileges_to_course_section: bool,
}

/// An assignment as the server sends it. Every field may be absent; `due_at`
/// is an RFC 3339 timestamp.
#[derive(Debug, Clone, Default, PartialEq, Eq)]
pub struct Assignment {
    pub id: Option<i64>,
    pub name: Option<String>,
    pub description: Option<String>,
    pub created_at: Option<String>,
    pub updated_at: Option<String>,
    pub due_at: Option<String>,
    pub lock_at: Option<String>,
    pub unlock_at: Option<String>,
    pub has_overrides: Option<bool>,
    pub course_id: Option<i64>,
    pub assignment_group_id: Option<i64>,
    pub due_date_required: Option<bool>,
    pub allowed_extensions: Option<Vec<String>>,
    pub max_name_length: Option<i64>,
    pub turnitin_enabled: Option<bool>,
    pub vericite_enabled: Option<bool>,
    pub grade_group_students_individually: Option<bool>,
    pub peer_reviews: Option<bool>,
    pub automatic_peer_reviews: Option<bool>,
    pub peer_review_count: Option<i64>,
    pub peer_reviews_assign_at: Option<String>,
    pub intra_group_peer_reviews: Option<bool>,
    pub group_category_id: Option<i64>,
    pub needs_grading_count: Option<i64>,
    pub needs_grading_count_by_section: Option<Vec<NeedsGradingCountBySection>>,
    pub position: Option<i64>,
    pub post_to_sis: Option<bool>,
    pub integration_id: Option<String>,
    pub integration_data: Option<IntegrationData>,
    pub submission_types: Option<Vec<String>>,
    pub has_submitted_submissions: Option<bool>,
    pub grading_type: Option<String>,
    pub published: Option<bool>,
    pub unpublishable: Option<bool>,
    pub only_visible_to_overrides: Option<bool>,
    pub locked_for_user: Option<bool>,
    pub lock_explanation: Option<String>,
    pub quiz_id: Option<i64>,
    pub anonymous_submissions: Option<bool>,
    pub freeze_on_copy: Option<bool>,
    pub frozen: Option<bool>,
    pub frozen_attributes: Option<Vec<String>>,
    pub use_rubric_for_grading: Option<bool>,
    pub rubric_settings: Option<RubricSettings>,
    pub rubric: Option<Rubric>,
    pub assignment_visibility: Option<Vec<i64>>,
    pub omit_from_final_grade: Option<bool>,
    pub moderated_grading: Option<bool>,
    pub grader_count: Option<i64>,
    pub final_grader_id: Option<i64>,
    pub grader_comments_visible_to_graders: Option<bool>,
    pub graders_anonymous_to_graders: Option<bool>,
    pub grader_names_visible_to_final_grader: Option<bool>,
    pub anonymous_grading: Option<bool>,
    pub allowed_attempts: Option<i64>,
    pub post_manually: Option<bool>,
    pub can_submit: Option<bool>,
    pub anonymize_students: Option<bool>,
    pub require_lockdown_browser: Option<bool>,
    pub important_dates: Option<bool>,
    pub muted: Option<bool>,
}

/// The part of an [`Assignment`] that the assignment listing reads.
pub struct AssignmentView {
    pub id: Option<i64>,
    pub name: Option<Seq<char>>,
    pub due_at: Option<Seq<char>>,
}

impl View for Assignment {
    type V = AssignmentView;

    open spec fn view(&self) -> AssignmentView {
        AssignmentView { id: self.id, name: text_of(self.name), due_at: text_of(self.due_at) }
    }
}

/// Why and until when an assignment is locked.
#[derive(Debug, Clone, Default, PartialEq, Eq)]
pub struct LockInfo {
    pub asset_string: Option<String>,
    pub unlock_at: Option<String>,
    pub lock_at: Option<String>,
    pub manually_locked: Option<bool>,
}

/// One criterion of a grading rubric.
#[derive(Debug, Clone, Default, PartialEq, Eq)]
pub struct Rubric {
    pub id: Option<String>,
    pub description: Option<String>,
    pub long_description: Option<String>,
    pub criterion_use_range: Option<bool>,
    pub ratings: Option<Vec<Rating>>,
}

/// One rating level of a rubric criterion.
#[derive(Debug, Clone, Default, PartialEq, Eq)]
pub struct Rating {
    pub id: Option<String>,
    pub description: Option<Description>,
    pub long_description: Option<String>,
}

/// The two descriptions that a rating level can carry.
#[derive(Debug, Clone, Copy, PartialEq, Eq)]
pub enum Description {
    FullMarks,
    NoMarks,
}

/// Identifiers that an external integration attached to an assignment.
#[derive(Debug, Clone, Default, PartialEq, Eq)]
pub struct IntegrationData {
    pub the_5678: Option<String>,
}

/// How many submissions of one section still need grading.
#[derive(Debug, Clone, Default, PartialEq, Eq)]
pub struct NeedsGradingCountBySection {
    pub section_id: Option<String>,
    pub needs_grading_count: Option<i64>,
}

/// The settings of the rubric attached to an assignment.
#[derive(Debug, Clone, Default, PartialEq, Eq)]
pub struct RubricSettings {
    pub id: Option<i64>,
    pub title: Option<String>,
    pub points_possible: Option<i64>,
    pub free_form_criterion_comments: Option<bool>,
    pub hide_score_total: Option<bool>,
    pub hide_points: Option<bool>,
}

/// The server's answer to a registered upload: where the file is to be sent
/// and with which parameters.
#[derive(Debug, Clone, Default, PartialEq, Eq)]
pub struct FileUpload {
    pub file_param: Option<String>,
    pub upload_url: Option<String>,
    pub upload_params: Option<UploadParams>,
}

/// What a [`FileUpload`] holds, as character sequences.
pub struct FileUploadView {
    pub file_param: Option<Seq<char>>,
    pub upload_url: Option<Seq<char>>,
    pub upload_params: Option<UploadParamsView>,
}

impl View for FileUpload {
    type V = FileUploadView;

    open spec fn view(&self) -> FileUploadView {
        FileUploadView {
            file_param: text_of(self.file_param),
            upload_url: text_of(self.upload_url),
            upload_params: match self.upload_params {
                Some(p) => Some(p@),
                None => None,
            },
        }
    }
}

impl FileUpload {
    /// An answer in which every field is present.
    pub fn new(file_param: String, upload_url: String, filename: String, content_type: String) -> (upload: FileUpload)
        ensures
            upload.file_param == Some(file_param),
            upload.upload_url == Some(upload_url),
            upload.upload_params == Some(
                UploadParams { filename: Some(filename), content_type: Some(content_type) },
            ),
    {
        FileUpload {
            file_param: Some(file_param),
            upload_url: Some(upload_url),
            upload_params: Some(
                UploadParams { filename: Some(filename), content_type: Some(content_type) },
            ),
        }
    }
}

/// The parameters that the upload service asks to be sent with the file.
#[derive(Debug, Clone, Default, PartialEq, Eq)]
pub struct UploadParams {
    pub filename: Option<String>,
    pub content_type: Option<String>,
}

/// What an [`UploadParams`] holds, as character sequences.
pub struct UploadParamsView {
    pub filename: Option<Seq<char>>,
    pub content_type: Option<Seq<char>>,
}

impl View for UploadParams {
    type V = UploadParamsView;

    open spec fn view(&self) -> UploadParamsView {
        UploadParamsView {
            filename: text_of(self.filename),
            content_type: text_of(self.content_type),
        }
    }
}

/// A registered upload that waits to be committed: the server's answer
/// together with the name and the directory of the local file.
#[derive(Debug, Clone, Default, PartialEq, Eq)]
pub struct UploadData {
    pub file_data: FileUpload,
    pub file_name: String,
    pub parent_path: String,
}

/// What an [`UploadData`] holds, as character sequences.
pub struct UploadDataView {
    pub file_data: FileUploadView,
    pub file_name: Seq<char>,
    pub parent_path: Seq<char>,
}

impl View for UploadData {
    type V = UploadDataView;

    open spec fn view(&self) -> UploadDataView {
        UploadDataView {
            file_data: self.file_data@,
            file_name: self.file_name@,
            parent_path: self.parent_path@,
        }
    }
}

impl UploadData {
    /// The pending upload of the file `file_name` in the directory
    /// `parent_path`, as the server answered it.
    pub fn new(file_data: FileUpload, file_name: String, parent_path: String) -> (upload: UploadData)
        ensures
            upload.file_data == file_data,
            upload.file_name == file_name,
            upload.parent_path == parent_path,
    {
        UploadData { file_data, file_name, parent_path }
    }
}

/// A committed upload that waits to be attached to a submission: the
/// identifier that the server gave to the stored file.
#[derive(Debug, Clone, Copy, PartialEq, Eq, Default)]
pub struct CommitData {
    pub file_id: i64,
}

} // verus!
