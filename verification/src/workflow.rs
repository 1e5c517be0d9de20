//! The three-stage submission of a local file: register the upload, commit
//! it, attach the stored file to an assignment.
//!
//! Each stage is one command of its own, so what one stage learns reaches
//! the next through two single-slot stores, the [`Slots`]: the pending
//! upload, written by a successful registration and read by the commit, and
//! the committed file, written by a successful commit and read by the
//! submission. A stage is planned, which yields the request to send or the
//! reason why nothing is sent, and finished, which takes the judged answer.
//! Only a successful finish writes a slot, and only its own.

use crate::data::CommitData;
use crate::data::FileUpload;
use crate::data::FileUploadView;
use crate::data::UploadData;
use crate::data::UploadDataView;
use crate::session::Credentials;
use crate::session::CredentialsView;
use crate::text::decimal;
use crate::text::i64_to_decimal;
use crate::text::signed_decimal;
use crate::text::u64_to_decimal;
use crate::transport::field;
use crate::transport::judge_status_spec;
use crate::transport::post_request;
use crate::transport::post_spec;
use crate::transport::FormField;
use crate::transport::Request;
use crate::transport::RequestView;
use crate::transport::TransportError;
use crate::transport::ANSWER_MALFORMED;
use crate::transport::SERVER_REJECTED;
use crate::transport::SERVER_UNREACHABLE;
use vstd::prelude::*;
use vstd::string::StrSliceExecFns;
use vstd::string::StringExecFns;

verus! {

/// Why a stage of the workflow did not succeed.
#[derive(Debug, Clone, Copy, PartialEq, Eq, Structural)]
pub enum WorkflowError {
    /// The path given to the registration names no readable file.
    FileNotFound,
    /// A commit without a pending upload: nothing was registered.
    NoPendingUpload,
    /// The pending upload lacks the address or the content type that the
    /// commit has to send.
    MissingUploadParams,
    /// A submission without a committed file: nothing was committed.
    NoPendingCommit,
    /// The call to the server failed.
    Transport(TransportError),
}

/// The line for [`WorkflowError::FileNotFound`].
pub const FILE_NOT_FOUND: &'static str = "File could not be read";

/// The line for [`WorkflowError::NoPendingUpload`].
pub const NO_PENDING_UPLOAD: &'static str = "No file was added, add one first";

/// The line for [`WorkflowError::MissingUploadParams`].
pub const MISSING_UPLOAD_PARAMS: &'static str = "The added file lacks its upload parameters";

/// The line for [`WorkflowError::NoPendingCommit`].
pub const NO_PENDING_COMMIT: &'static str = "No file was committed, commit one first";

impl WorkflowError {
    /// The line shown to the user for this error. A failed call is
    /// described by its own error.
    pub fn message(&self) -> (text: &'static str)
        ensures
            text@ == match *self {
                WorkflowError::FileNotFound => FILE_NOT_FOUND@,
                WorkflowError::NoPendingUpload => NO_PENDING_UPLOAD@,
                WorkflowError::MissingUploadParams => MISSING_UPLOAD_PARAMS@,
                WorkflowError::NoPendingCommit => NO_PENDING_COMMIT@,
                WorkflowError::Transport(TransportError::Unreachable) => SERVER_UNREACHABLE@,
                WorkflowError::Transport(TransportError::ServerRejected) => SERVER_REJECTED@,
                WorkflowError::Transport(TransportError::MalformedResponse) => ANSWER_MALFORMED@,
            },
    {
        match self {
            WorkflowError::FileNotFound => FILE_NOT_FOUND,
            WorkflowError::NoPendingUpload => NO_PENDING_UPLOAD,
            WorkflowError::MissingUploadParams => MISSING_UPLOAD_PARAMS,
            WorkflowError::NoPendingCommit => NO_PENDING_COMMIT,
            WorkflowError::Transport(inner) => inner.message(),
        }
    }

    /// Whether the stage was invoked out of order: the slot that it reads
    /// is empty.
    pub open spec fn no_pending_state(self) -> bool {
        self is NoPendingUpload || self is NoPendingCommit
    }

    /// Tells whether the stage was invoked out of order.
    pub fn is_no_pending_state(&self) -> (out_of_order: bool)
        ensures
            out_of_order == self.no_pending_state(),
    {
        match self {
            WorkflowError::NoPendingUpload => true,
            WorkflowError::NoPendingCommit => true,
            _ => false,
        }
    }
}

/// A local file as it was found: its absolute path and its size in bytes.
#[derive(Debug, Clone, PartialEq, Eq)]
pub struct LocalFile {
    pub full_path: String,
    pub size: u64,
}

/// What a [`LocalFile`] holds, as character sequences.
pub struct LocalFileView {
    pub full_path: Seq<char>,
    pub size: u64,
}

impl View for LocalFile {
    type V = LocalFileView;

    open spec fn view(&self) -> LocalFileView {
        LocalFileView { full_path: self.full_path@, size: self.size }
    }
}

/// The two stores that hand one stage's result to the next.
#[derive(Debug, Clone, Default, PartialEq, Eq)]
pub struct Slots {
    /// The registered upload that waits to be committed.
    pub upload: Option<UploadData>,
    /// The committed file that waits to be submitted.
    pub commit: Option<CommitData>,
}

/// What a [`Slots`] holds, as character sequences.
pub struct SlotsView {
    pub upload: Option<UploadDataView>,
    pub commit: Option<CommitData>,
}

impl View for Slots {
    type V = SlotsView;

    open spec fn view(&self) -> SlotsView {
        SlotsView {
            upload: match self.upload {
                Some(upload) => Some(upload@),
                None => None,
            },
            commit: self.commit,
        }
    }
}

/// What a submission attaches: a stored file, to an assignment of a course.
#[derive(Debug, Clone, Copy, PartialEq, Eq, Structural)]
pub struct SubmissionRequest {
    pub course_id: i64,
    pub assignment_id: i64,
    pub file_id: i64,
}

/// The index of the last `/` of `path`, `-1` when it has none.
pub open spec fn last_slash(path: Seq<char>) -> int
    decreases path.len(),
{
    if path.len() == 0 {
        -1
    } else if path.last() == '/' {
        path.len() - 1
    } else {
        last_slash(path.drop_last())
    }
}

/// The directory of `path`: what stands before its last `/`.
pub open spec fn parent_of(path: Seq<char>) -> Seq<char> {
    if last_slash(path) < 0 {
        Seq::empty()
    } else {
        path.subrange(0, last_slash(path))
    }
}

/// The file name of `path`: what stands after its last `/`.
pub open spec fn file_name_of(path: Seq<char>) -> Seq<char> {
    path.subrange(last_slash(path) + 1, path.len() as int)
}

/// The address at which an upload is registered.
pub open spec fn files_url(base: Seq<char>) -> Seq<char> {
    base + "/api/v1/users/self/files"@
}

/// The address at which a file is attached to an assignment.
pub open spec fn submissions_url(base: Seq<char>, course_id: i64, assignment_id: i64) -> Seq<
    char,
> {
    base + "/api/v1/courses/"@ + signed_decimal(course_id as int) + "/assignments/"@
        + signed_decimal(assignment_id as int) + "/submissions"@
}

/// The form that registers the upload of `file`.
pub open spec fn register_form(file: LocalFileView) -> Seq<(Seq<char>, Seq<char>)> {
    seq![
        ("size"@, decimal(file.size as nat)),
        ("parent_folder_path"@, parent_of(file.full_path)),
        ("file"@, file_name_of(file.full_path)),
    ]
}

/// The form that commits the pending upload `upload`.
pub open spec fn commit_form(upload: UploadDataView, content_type: Seq<char>) -> Seq<
    (Seq<char>, Seq<char>),
> {
    seq![
        ("parent_folder_path"@, upload.parent_path),
        ("content_type"@, content_type),
        ("file"@, upload.file_name),
    ]
}

/// The form that attaches the stored file `file_id`.
pub open spec fn submission_form(file_id: i64) -> Seq<(Seq<char>, Seq<char>)> {
    seq![
        ("submission[submission_type]"@, "online_upload"@),
        ("submission[file_ids][]"@, signed_decimal(file_id as int)),
    ]
}

/// The pending upload that a registration of `file` stores when the server
/// answers `answer`.
pub open spec fn registered(file: LocalFileView, answer: FileUploadView) -> UploadDataView {
    UploadDataView {
        file_data: answer,
        file_name: file_name_of(file.full_path),
        parent_path: parent_of(file.full_path),
    }
}

/// Stage 1, planned: `file` is what was found at the path, `None` when the
/// path could not be resolved.
pub open spec fn plan_register_spec(
    credentials: CredentialsView,
    file: Option<LocalFileView>,
) -> Result<RequestView, WorkflowError> {
    match file {
        None => Err(WorkflowError::FileNotFound),
        Some(found) => Ok(
            post_spec(files_url(credentials.base_url), credentials.bearer_token, register_form(found)),
        ),
    }
}

/// Stage 1, finished: the slots after the judged answer `reply`, and the
/// outcome of the stage.
pub open spec fn finish_register_spec(
    slots: SlotsView,
    file: LocalFileView,
    reply: Result<FileUploadView, TransportError>,
) -> (SlotsView, Result<(), WorkflowError>) {
    match reply {
        Ok(answer) => (
            SlotsView { upload: Some(registered(file, answer)), commit: slots.commit },
            Ok(()),
        ),
        Err(e) => (slots, Err(WorkflowError::Transport(e))),
    }
}

/// Stage 2, planned.
pub open spec fn plan_commit_spec(token: Seq<char>, slots: SlotsView) -> Result<
    RequestView,
    WorkflowError,
> {
    match slots.upload {
        None => Err(WorkflowError::NoPendingUpload),
        Some(upload) => match (upload.file_data.upload_url, upload.file_data.upload_params) {
            (Some(url), Some(params)) => match params.content_type {
                Some(content_type) => Ok(post_spec(url, token, commit_form(upload, content_type))),
                None => Err(WorkflowError::MissingUploadParams),
            },
            _ => Err(WorkflowError::MissingUploadParams),
        },
    }
}

/// Stage 2, finished: the slots after the judged answer `reply`, and the
/// outcome of the stage.
pub open spec fn finish_commit_spec(slots: SlotsView, reply: Result<CommitData, TransportError>) -> (
    SlotsView,
    Result<CommitData, WorkflowError>,
) {
    match reply {
        Ok(stored) => (SlotsView { upload: slots.upload, commit: Some(stored) }, Ok(stored)),
        Err(e) => (slots, Err(WorkflowError::Transport(e))),
    }
}

/// Stage 3, planned.
pub open spec fn plan_submit_spec(slots: SlotsView, course_id: i64, assignment_id: i64) -> Result<
    SubmissionRequest,
    WorkflowError,
> {
    match slots.commit {
        None => Err(WorkflowError::NoPendingCommit),
        Some(stored) => Ok(SubmissionRequest { course_id, assignment_id, file_id: stored.file_id }),
    }
}

/// The request that carries `submission`.
pub open spec fn submission_request_spec(
    credentials: CredentialsView,
    submission: SubmissionRequest,
) -> RequestView {
    post_spec(
        submissions_url(credentials.base_url, submission.course_id, submission.assignment_id),
        credentials.bearer_token,
        submission_form(submission.file_id),
    )
}

/// Stage 3, finished.
pub open spec fn finish_submit_spec(reply: Result<(), TransportError>) -> Result<
    (),
    WorkflowError,
> {
    match reply {
        Ok(_) => Ok(()),
        Err(e) => Err(WorkflowError::Transport(e)),
    }
}

/// The view of a planned request.
pub open spec fn plan_view(plan: Result<Request, WorkflowError>) -> Result<
    RequestView,
    WorkflowError,
> {
    match plan {
        Ok(request) => Ok(request@),
        Err(e) => Err(e),
    }
}

/// The view of an optional local file.
pub open spec fn found_view(file: Option<&LocalFile>) -> Option<LocalFileView> {
    match file {
        Some(found) => Some(found@),
        None => None,
    }
}

/// The view of a judged answer to a registration.
pub open spec fn answer_view(reply: Result<FileUpload, TransportError>) -> Result<
    FileUploadView,
    TransportError,
> {
    match reply {
        Ok(answer) => Ok(answer@),
        Err(e) => Err(e),
    }
}

impl Slots {
    /// The slots before anything was registered: both are empty.
    pub fn new() -> (slots: Slots)
        ensures
            slots.upload is None,
            slots.commit is None,
    {
        Slots { upload: None, commit: None }
    }
}

/// Splits an absolute path at its last `/` into directory and file name.
/// A path without `/` is all file name.
pub fn split_path(full_path: &str) -> (parts: (String, String))
    ensures
        parts.0@ == parent_of(full_path@),
        parts.1@ == file_name_of(full_path@),
{
    let n = full_path.unicode_len();
    let mut end: usize = n;
    proof {
        assert(full_path@.subrange(0, n as int) =~= full_path@);
    }
    while end > 0
        invariant
            end <= n,
            n == full_path@.len(),
            last_slash(full_path@) == last_slash(full_path@.subrange(0, end as int)),
        decreases end,
    {
        let ghost prefix = full_path@.subrange(0, end as int);
        if full_path.get_char(end - 1) == '/' {
            assert(prefix.last() == '/');
            let parent = String::from_str(full_path.substring_char(0, end - 1));
            let name = String::from_str(full_path.substring_char(end, n));
            return (parent, name);
        }
        assert(prefix.drop_last() =~= full_path@.subrange(0, end - 1));
        end -= 1;
    }
    assert(full_path@.subrange(0, n as int) =~= full_path@);
    (String::new(), String::from_str(full_path))
}

/// Plans stage 1 for the file found at the path that the user gave,
/// `None` when the path could not be resolved. With a file there is a
/// request to send; without, the stage fails with `FileNotFound` and
/// nothing is sent.
pub fn plan_register_upload(credentials: &Credentials, file: Option<&LocalFile>) -> (plan: Result<
    Request,
    WorkflowError,
>)
    ensures
        plan_view(plan) == plan_register_spec(credentials@, found_view(file)),
{
    match file {
        None => Err(WorkflowError::FileNotFound),
        Some(found) => {
            let parts = split_path(found.full_path.as_str());
            let mut form: Vec<FormField> = Vec::new();
            form.push(field("size", u64_to_decimal(found.size)));
            form.push(field("parent_folder_path", parts.0));
            form.push(field("file", parts.1));
            assert(form@.map_values(|f: FormField| f@) =~= register_form(found@));
            let url = String::from_str(credentials.base_url.as_str()).concat(
                "/api/v1/users/self/files",
            );
            Ok(post_request(url, credentials.bearer_token.as_str(), form))
        },
    }
}

/// Finishes stage 1 with the judged answer of the server. On success the
/// pending upload is stored, in place of an earlier one; on failure the
/// slots stay as they were.
pub fn finish_register_upload(
    slots: &mut Slots,
    file: &LocalFile,
    reply: Result<FileUpload, TransportError>,
) -> (outcome: Result<(), WorkflowError>)
    ensures
        (final(slots)@, outcome) == finish_register_spec(old(slots)@, file@, answer_view(reply)),
        reply is Err ==> *final(slots) == *old(slots),
{
    match reply {
        Ok(answer) => {
            let parts = split_path(file.full_path.as_str());
            slots.upload = Some(UploadData::new(answer, parts.1, parts.0));
            Ok(())
        },
        Err(e) => Err(WorkflowError::Transport(e)),
    }
}

/// Plans stage 2. Without a pending upload the stage fails with
/// `NoPendingUpload` and nothing is sent; a pending upload without address
/// or content type fails with `MissingUploadParams`.
pub fn plan_commit_upload(credentials: &Credentials, slots: &Slots) -> (plan: Result<
    Request,
    WorkflowError,
>)
    ensures
        plan_view(plan) == plan_commit_spec(credentials@.bearer_token, slots@),
{
    match &slots.upload {
        None => Err(WorkflowError::NoPendingUpload),
        Some(upload) => {
            match (&upload.file_data.upload_url, &upload.file_data.upload_params) {
                (Some(url), Some(params)) => {
                    match &params.content_type {
                        Some(content_type) => {
                            let mut form: Vec<FormField> = Vec::new();
                            form.push(field("parent_folder_path", upload.parent_path.clone()));
                            form.push(field("content_type", content_type.clone()));
                            form.push(field("file", upload.file_name.clone()));
                            assert(form@.map_values(|f: FormField| f@) =~= commit_form(
                                upload@,
                                content_type@,
                            ));
                            Ok(post_request(url.clone(), credentials.bearer_token.as_str(), form))
                        },
                        None => Err(WorkflowError::MissingUploadParams),
                    }
                },
                _ => Err(WorkflowError::MissingUploadParams),
            }
        },
    }
}

/// Finishes stage 2 with the judged answer of the upload service. On
/// success the committed file is stored, in place of an earlier one; on
/// failure the slots stay as they were. The pending upload stays in
/// either case.
pub fn finish_commit_upload(slots: &mut Slots, reply: Result<CommitData, TransportError>) -> (outcome:
    Result<CommitData, WorkflowError>)
    ensures
        (final(slots)@, outcome) == finish_commit_spec(old(slots)@, reply),
        final(slots).upload == old(slots).upload,
        reply is Err ==> *final(slots) == *old(slots),
{
    match reply {
        Ok(stored) => {
            slots.commit = Some(stored);
            Ok(stored)
        },
        Err(e) => Err(WorkflowError::Transport(e)),
    }
}

/// Plans stage 3. Without a committed file the stage fails with
/// `NoPendingCommit`.
pub fn plan_submit(slots: &Slots, course_id: i64, assignment_id: i64) -> (plan: Result<
    SubmissionRequest,
    WorkflowError,
>)
    ensures
        plan == plan_submit_spec(slots@, course_id, assignment_id),
{
    match slots.commit {
        None => Err(WorkflowError::NoPendingCommit),
        Some(stored) => Ok(SubmissionRequest { course_id, assignment_id, file_id: stored.file_id }),
    }
}

/// Builds the request that carries a submission.
pub fn submission_request(credentials: &Credentials, submission: &SubmissionRequest) -> (request:
    Request)
    ensures
        request@ == submission_request_spec(credentials@, *submission),
{
    let mut form: Vec<FormField> = Vec::new();
    form.push(field("submission[submission_type]", String::from_str("online_upload")));
    form.push(field("submission[file_ids][]", i64_to_decimal(submission.file_id)));
    assert(form@.map_values(|f: FormField| f@) =~= submission_form(submission.file_id));
    let mut url = String::from_str(credentials.base_url.as_str());
    url.append("/api/v1/courses/");
    url.append(i64_to_decimal(submission.course_id).as_str());
    url.append("/assignments/");
    url.append(i64_to_decimal(submission.assignment_id).as_str());
    url.append("/submissions");
    post_request(url, credentials.bearer_token.as_str(), form)
}

/// Finishes stage 3 with the judged answer of the server. The slots are
/// not touched: a committed file can be submitted again.
pub fn finish_submit(reply: Result<(), TransportError>) -> (outcome: Result<(), WorkflowError>)
    ensures
        outcome == finish_submit_spec(reply),
{
    match reply {
        Ok(_) => Ok(()),
        Err(e) => Err(WorkflowError::Transport(e)),
    }
}

/// The two parts of a split path: the file name holds no `/`; a path with
/// a `/` is its directory, a `/`, and its file name; a path without is all
/// file name.
pub proof fn lemma_split_parts(path: Seq<char>)
    ensures
        !file_name_of(path).contains('/'),
        path.contains('/') ==> path == parent_of(path) + seq!['/'] + file_name_of(path),
        !path.contains('/') ==> parent_of(path) == Seq::<char>::empty() && file_name_of(path)
            == path,
{
    lemma_last_slash(path);
    let cut = last_slash(path);
    let name = file_name_of(path);
    assert forall|k: int| 0 <= k < name.len() implies name[k] != '/' by {
        assert(name[k] == path[cut + 1 + k]);
    }
    if cut >= 0 {
        assert(path =~= parent_of(path) + seq!['/'] + name);
    } else {
        assert(name =~= path);
    }
}

/// Where the last `/` stands: at `last_slash(path)` when that is an index,
/// with no `/` after it; nowhere when it is `-1`.
proof fn lemma_last_slash(path: Seq<char>)
    ensures
        -1 <= last_slash(path) < path.len(),
        last_slash(path) >= 0 ==> path[last_slash(path)] == '/',
        forall|k: int| last_slash(path) < k < path.len() ==> path[k] != '/',
        last_slash(path) >= 0 <==> path.contains('/'),
    decreases path.len(),
{
    if path.len() == 0 {
    } else if path.last() == '/' {
        assert(path.contains('/'));
    } else {
        let shorter = path.drop_last();
        lemma_last_slash(shorter);
        if last_slash(shorter) >= 0 {
            assert(path[last_slash(shorter)] == shorter[last_slash(shorter)]);
            assert(path.contains('/'));
        }
        assert forall|k: int| last_slash(path) < k < path.len() implies path[k] != '/' by {
            if k < shorter.len() {
                assert(path[k] == shorter[k]);
            }
        }
    }
}

/// Stage order: as long as nothing was registered, a commit fails with
/// `NoPendingUpload`, and as long as nothing was committed, a submission
/// fails with `NoPendingCommit`. Both are failures for want of pending
/// state, and neither plan holds a request, so nothing is sent.
pub proof fn lemma_stage_order(
    token: Seq<char>,
    slots: SlotsView,
    course_id: i64,
    assignment_id: i64,
)
    ensures
        slots.upload is None ==> plan_commit_spec(token, slots) == Err::<
            RequestView,
            WorkflowError,
        >(WorkflowError::NoPendingUpload),
        slots.commit is None ==> plan_submit_spec(slots, course_id, assignment_id) == Err::<
            SubmissionRequest,
            WorkflowError,
        >(WorkflowError::NoPendingCommit),
        plan_commit_spec(token, slots) matches Err(e) && e.no_pending_state()
            ==> slots.upload is None,
        plan_submit_spec(slots, course_id, assignment_id) matches Err(e) ==> e.no_pending_state()
            && slots.commit is None,
{
}

/// A failed registration changes nothing: whether the file was not found,
/// so that nothing was sent, or the call failed, the slots are those of
/// before, and a commit is planned against the earlier pending upload
/// exactly as it would have been.
pub proof fn lemma_failed_register_keeps_pending_upload(
    credentials: CredentialsView,
    slots: SlotsView,
    file: LocalFileView,
    error: TransportError,
)
    ensures
        plan_register_spec(credentials, None) == Err::<RequestView, WorkflowError>(
            WorkflowError::FileNotFound,
        ),
        finish_register_spec(slots, file, Err(error)).0 == slots,
        finish_register_spec(slots, file, Err(error)).1 == Err::<(), WorkflowError>(
            WorkflowError::Transport(error),
        ),
        plan_commit_spec(
            credentials.bearer_token,
            finish_register_spec(slots, file, Err(error)).0,
        ) == plan_commit_spec(credentials.bearer_token, slots),
{
}

/// A failed commit changes nothing: when the upload service rejects the
/// call or cannot be reached, the stage fails with that error, the slots
/// are those of before, and the commit can be planned again to the same
/// request. When the retried call succeeds, the committed file is stored.
pub proof fn lemma_failed_commit_can_be_retried(
    token: Seq<char>,
    slots: SlotsView,
    status: Option<u16>,
    stored: CommitData,
)
    requires
        judge_status_spec(status) is Err,
    ensures
        status matches Some(code) ==> judge_status_spec(status) == Err::<(), TransportError>(
            TransportError::ServerRejected,
        ),
        ({
            let error = judge_status_spec(status)->Err_0;
            let after = finish_commit_spec(slots, Err(error));
            &&& after.0 == slots
            &&& after.1 == Err::<CommitData, WorkflowError>(WorkflowError::Transport(error))
            &&& plan_commit_spec(token, after.0) == plan_commit_spec(token, slots)
            &&& finish_commit_spec(after.0, Ok(stored)).0.commit == Some(stored)
            &&& finish_commit_spec(after.0, Ok(stored)).0.upload == slots.upload
        }),
{
}

/// What a registration stores is what the commit reads: after a successful
/// registration the pending upload holds the server's answer, the file name
/// and the directory, each as it was, and the commit is planned from
/// exactly these: to the address of the answer, with its content type.
pub proof fn lemma_pending_upload_is_read_back(
    token: Seq<char>,
    slots: SlotsView,
    file: LocalFileView,
    answer: FileUploadView,
)
    ensures
        ({
            let after = finish_register_spec(slots, file, Ok(answer)).0;
            &&& after.upload == Some(registered(file, answer))
            &&& after.commit == slots.commit
            &&& registered(file, answer).file_data == answer
            &&& match (answer.upload_url, answer.upload_params) {
                (Some(url), Some(params)) => match params.content_type {
                    Some(content_type) => plan_commit_spec(token, after) == Ok::<
                        RequestView,
                        WorkflowError,
                    >(
                        post_spec(
                            url,
                            token,
                            seq![
                                ("parent_folder_path"@, parent_of(file.full_path)),
                                ("content_type"@, content_type),
                                ("file"@, file_name_of(file.full_path)),
                            ],
                        ),
                    ),
                    None => plan_commit_spec(token, after) == Err::<RequestView, WorkflowError>(
                        WorkflowError::MissingUploadParams,
                    ),
                },
                _ => plan_commit_spec(token, after) == Err::<RequestView, WorkflowError>(
                    WorkflowError::MissingUploadParams,
                ),
            }
        }),
{
}

/// The three stages in a row: after a successful registration and a
/// successful commit that stored the file `stored`, the submission to an
/// assignment attaches exactly that file.
pub proof fn lemma_workflow_submits_committed_file(
    credentials: CredentialsView,
    slots: SlotsView,
    file: LocalFileView,
    answer: FileUploadView,
    stored: CommitData,
    course_id: i64,
    assignment_id: i64,
)
    ensures
        ({
            let registered_slots = finish_register_spec(slots, file, Ok(answer)).0;
            let committed_slots = finish_commit_spec(registered_slots, Ok(stored)).0;
            let submission = SubmissionRequest { course_id, assignment_id, file_id: stored.file_id };
            &&& plan_submit_spec(committed_slots, course_id, assignment_id) == Ok::<
                SubmissionRequest,
                WorkflowError,
            >(submission)
            &&& submission_request_spec(credentials, submission).form[1] == (
                "submission[file_ids][]"@,
                signed_decimal(stored.file_id as int),
            )
        }),
{
}

/// One finished stage, as the slots see it.
pub enum Finished {
    /// A registration finished with this judged answer.
    Register { file: LocalFileView, reply: Result<FileUploadView, TransportError> },
    /// A commit finished with this judged answer.
    Commit { reply: Result<CommitData, TransportError> },
    /// A submission finished; it touches no slot.
    Submit,
}

/// The slots after one finished stage.
pub open spec fn after_stage(slots: SlotsView, stage: Finished) -> SlotsView {
    match stage {
        Finished::Register { file, reply } => finish_register_spec(slots, file, reply).0,
        Finished::Commit { reply } => finish_commit_spec(slots, reply).0,
        Finished::Submit => slots,
    }
}

/// The slots after a history of finished stages that began with both
/// slots empty.
pub open spec fn after_history(history: Seq<Finished>) -> SlotsView
    decreases history.len(),
{
    if history.len() == 0 {
        SlotsView { upload: None, commit: None }
    } else {
        after_stage(after_history(history.drop_last()), history.last())
    }
}

/// Stage order over every history: while no registration has succeeded, a
/// commit fails with `NoPendingUpload`, and while no commit has succeeded,
/// a submission fails with `NoPendingCommit`, whatever else was tried
/// before. Neither plan holds a request.
pub proof fn lemma_stage_order_over_history(
    token: Seq<char>,
    history: Seq<Finished>,
    course_id: i64,
    assignment_id: i64,
)
    ensures
        (forall|i: int|
            0 <= i < history.len() ==> !(#[trigger] history[i] matches Finished::Register {
                reply,
                ..
            } && reply is Ok)) ==> plan_commit_spec(token, after_history(history)) == Err::<
            RequestView,
            WorkflowError,
        >(WorkflowError::NoPendingUpload),
        (forall|i: int|
            0 <= i < history.len() ==> !(#[trigger] history[i] matches Finished::Commit { reply }
                && reply is Ok)) ==> plan_submit_spec(
            after_history(history),
            course_id,
            assignment_id,
        ) == Err::<SubmissionRequest, WorkflowError>(WorkflowError::NoPendingCommit),
    decreases history.len(),
{
    if history.len() > 0 {
        let earlier = history.drop_last();
        lemma_stage_order_over_history(token, earlier, course_id, assignment_id);
        assert(forall|i: int| 0 <= i < earlier.len() ==> earlier[i] == history[i]);
        assert(history.last() == history[history.len() - 1]);
    }
}

} // verus!
