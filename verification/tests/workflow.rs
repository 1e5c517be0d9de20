use canvas_cli::data::CommitData;
use canvas_cli::data::FileUpload;
use canvas_cli::data::UploadData;
use canvas_cli::data::UploadParams;
use canvas_cli::session::Credentials;
use canvas_cli::transport::judge_body;
use canvas_cli::transport::judge_status;
use canvas_cli::transport::FormField;
use canvas_cli::transport::Method;
use canvas_cli::transport::TransportError;
use canvas_cli::workflow::finish_commit_upload;
use canvas_cli::workflow::finish_register_upload;
use canvas_cli::workflow::finish_submit;
use canvas_cli::workflow::plan_commit_upload;
use canvas_cli::workflow::plan_register_upload;
use canvas_cli::workflow::plan_submit;
use canvas_cli::workflow::split_path;
use canvas_cli::workflow::submission_request;
use canvas_cli::workflow::LocalFile;
use canvas_cli::workflow::Slots;
use canvas_cli::workflow::SubmissionRequest;
use canvas_cli::workflow::WorkflowError;

fn credentials() -> Credentials {
    Credentials { bearer_token: "s3cr3t".to_string(), base_url: "https://school.example".to_string() }
}

fn pair(name: &str, value: &str) -> FormField {
    FormField { name: name.to_string(), value: value.to_string() }
}

fn essay() -> LocalFile {
    LocalFile { full_path: "/home/ada/work/f.pdf".to_string(), size: 2048 }
}

fn answer() -> FileUpload {
    FileUpload::new(
        "file".to_string(),
        "https://x/upload".to_string(),
        "f.pdf".to_string(),
        "application/pdf".to_string(),
    )
}

fn registered() -> Slots {
    let mut slots = Slots::new();
    assert_eq!(finish_register_upload(&mut slots, &essay(), Ok(answer())), Ok(()));
    slots
}

#[test]
fn split_path_at_the_last_slash() {
    assert_eq!(split_path("/home/ada/work/f.pdf"), ("/home/ada/work".to_string(), "f.pdf".to_string()));
    assert_eq!(split_path("/f.pdf"), (String::new(), "f.pdf".to_string()));
    assert_eq!(split_path("a/b"), ("a".to_string(), "b".to_string()));
}

#[test]
fn split_path_without_slash_is_all_name() {
    assert_eq!(split_path("f.pdf"), (String::new(), "f.pdf".to_string()));
    assert_eq!(split_path(""), (String::new(), String::new()));
}

#[test]
fn split_path_with_trailing_slash_has_no_name() {
    assert_eq!(split_path("/"), (String::new(), String::new()));
    assert_eq!(split_path("/home/ada/"), ("/home/ada".to_string(), String::new()));
    assert_eq!(split_path("//"), ("/".to_string(), String::new()));
}

#[test]
fn split_path_counts_characters_not_bytes() {
    assert_eq!(split_path("/höme/ädä/ünï.pdf"), ("/höme/ädä".to_string(), "ünï.pdf".to_string()));
    assert_eq!(split_path("目录/文件"), ("目录".to_string(), "文件".to_string()));
}

#[test]
fn split_path_agrees_with_split_and_join() {
    for path in ["/a/b/c", "/a", "a", "", "/", "a//b", "/a/b/", "x/y/z.tar.gz"].iter() {
        let pieces: Vec<&str> = path.split("/").collect();
        let parent = pieces[0..pieces.len() - 1].join("/");
        let name = pieces[pieces.len() - 1].to_string();
        assert_eq!(split_path(path), (parent, name));
    }
}

#[test]
fn new_slots_are_empty() {
    let slots = Slots::new();
    assert_eq!(slots.upload, None);
    assert_eq!(slots.commit, None);
    assert_eq!(slots, Slots::default());
}

#[test]
fn register_without_file_fails_and_sends_nothing() {
    assert_eq!(plan_register_upload(&credentials(), None), Err(WorkflowError::FileNotFound));
}

#[test]
fn register_sends_size_directory_and_name() {
    let request = plan_register_upload(&credentials(), Some(&essay())).unwrap();
    assert_eq!(request.method, Method::Post);
    assert_eq!(request.url, "https://school.example/api/v1/users/self/files");
    assert_eq!(request.authorization, "Bearer s3cr3t");
    assert_eq!(
        request.form,
        vec![pair("size", "2048"), pair("parent_folder_path", "/home/ada/work"), pair("file", "f.pdf")]
    );
}

#[test]
fn register_of_an_empty_file_sends_size_zero() {
    let file = LocalFile { full_path: "/empty".to_string(), size: 0 };
    let request = plan_register_upload(&credentials(), Some(&file)).unwrap();
    assert_eq!(request.form, vec![pair("size", "0"), pair("parent_folder_path", ""), pair("file", "empty")]);
}

#[test]
fn successful_register_stores_the_pending_upload() {
    let slots = registered();
    assert_eq!(
        slots.upload,
        Some(UploadData::new(answer(), "f.pdf".to_string(), "/home/ada/work".to_string()))
    );
    assert_eq!(slots.commit, None);
}

#[test]
fn pending_upload_keeps_every_field() {
    let slots = registered();
    let upload = slots.upload.unwrap();
    assert_eq!(upload.file_name, "f.pdf");
    assert_eq!(upload.parent_path, "/home/ada/work");
    assert_eq!(upload.file_data.file_param, Some("file".to_string()));
    assert_eq!(upload.file_data.upload_url, Some("https://x/upload".to_string()));
    let params = upload.file_data.upload_params.unwrap();
    assert_eq!(params.filename, Some("f.pdf".to_string()));
    assert_eq!(params.content_type, Some("application/pdf".to_string()));
}

#[test]
fn register_replaces_an_earlier_pending_upload() {
    let mut slots = registered();
    let other = LocalFile { full_path: "/tmp/g.txt".to_string(), size: 1 };
    let reply = FileUpload::new(
        "file".to_string(),
        "https://x/other".to_string(),
        "g.txt".to_string(),
        "text/plain".to_string(),
    );
    assert_eq!(finish_register_upload(&mut slots, &other, Ok(reply.clone())), Ok(()));
    assert_eq!(slots.upload, Some(UploadData::new(reply, "g.txt".to_string(), "/tmp".to_string())));
}

#[test]
fn register_leaves_the_committed_file() {
    let mut slots = Slots { upload: None, commit: Some(CommitData { file_id: 5 }) };
    assert_eq!(finish_register_upload(&mut slots, &essay(), Ok(answer())), Ok(()));
    assert_eq!(slots.commit, Some(CommitData { file_id: 5 }));
}

#[test]
fn commit_without_register_fails_and_sends_nothing() {
    let plan = plan_commit_upload(&credentials(), &Slots::new());
    assert_eq!(plan, Err(WorkflowError::NoPendingUpload));
    assert!(WorkflowError::NoPendingUpload.is_no_pending_state());
    let only_commit = Slots { upload: None, commit: Some(CommitData { file_id: 1 }) };
    assert_eq!(plan_commit_upload(&credentials(), &only_commit), Err(WorkflowError::NoPendingUpload));
}

#[test]
fn failed_register_keeps_the_pending_upload() {
    let mut slots = registered();
    let before = slots.clone();
    let planned_before = plan_commit_upload(&credentials(), &slots);
    assert!(planned_before.is_ok());

    assert_eq!(plan_register_upload(&credentials(), None), Err(WorkflowError::FileNotFound));
    assert_eq!(slots, before);

    for error in [TransportError::Unreachable, TransportError::ServerRejected, TransportError::MalformedResponse].iter() {
        let missing = LocalFile { full_path: "/nonexistent".to_string(), size: 0 };
        assert_eq!(
            finish_register_upload(&mut slots, &missing, Err(*error)),
            Err(WorkflowError::Transport(*error))
        );
        assert_eq!(slots, before);
    }
    assert_eq!(plan_commit_upload(&credentials(), &slots), planned_before);
}

#[test]
fn failed_register_on_empty_slots_leaves_them_empty() {
    let mut slots = Slots::new();
    assert_eq!(
        finish_register_upload(&mut slots, &essay(), Err(TransportError::ServerRejected)),
        Err(WorkflowError::Transport(TransportError::ServerRejected))
    );
    assert_eq!(slots, Slots::new());
    assert_eq!(plan_commit_upload(&credentials(), &slots), Err(WorkflowError::NoPendingUpload));
}

#[test]
fn commit_sends_directory_content_type_and_name() {
    let request = plan_commit_upload(&credentials(), &registered()).unwrap();
    assert_eq!(request.method, Method::Post);
    assert_eq!(request.url, "https://x/upload");
    assert_eq!(request.authorization, "Bearer s3cr3t");
    assert_eq!(
        request.form,
        vec![
            pair("parent_folder_path", "/home/ada/work"),
            pair("content_type", "application/pdf"),
            pair("file", "f.pdf"),
        ]
    );
}

#[test]
fn commit_without_content_type_fails() {
    let mut reply = answer();
    reply.upload_params = Some(UploadParams { filename: Some("f.pdf".to_string()), content_type: None });
    let mut slots = Slots::new();
    assert_eq!(finish_register_upload(&mut slots, &essay(), Ok(reply)), Ok(()));
    assert_eq!(plan_commit_upload(&credentials(), &slots), Err(WorkflowError::MissingUploadParams));
    assert!(!WorkflowError::MissingUploadParams.is_no_pending_state());
}

#[test]
fn commit_without_params_or_address_fails() {
    let mut without_params = answer();
    without_params.upload_params = None;
    let mut slots = Slots::new();
    assert_eq!(finish_register_upload(&mut slots, &essay(), Ok(without_params)), Ok(()));
    assert_eq!(plan_commit_upload(&credentials(), &slots), Err(WorkflowError::MissingUploadParams));

    let mut without_address = answer();
    without_address.upload_url = None;
    assert_eq!(finish_register_upload(&mut slots, &essay(), Ok(without_address)), Ok(()));
    assert_eq!(plan_commit_upload(&credentials(), &slots), Err(WorkflowError::MissingUploadParams));

    assert_eq!(finish_register_upload(&mut slots, &essay(), Ok(FileUpload::default())), Ok(()));
    assert_eq!(plan_commit_upload(&credentials(), &slots), Err(WorkflowError::MissingUploadParams));
}

#[test]
fn successful_commit_stores_the_file_and_keeps_the_upload() {
    let mut slots = registered();
    let upload = slots.upload.clone();
    assert_eq!(
        finish_commit_upload(&mut slots, Ok(CommitData { file_id: 42 })),
        Ok(CommitData { file_id: 42 })
    );
    assert_eq!(slots.commit, Some(CommitData { file_id: 42 }));
    assert_eq!(slots.upload, upload);
}

#[test]
fn rejected_commit_can_be_retried() {
    let mut slots = registered();
    let before = slots.clone();
    let first_plan = plan_commit_upload(&credentials(), &slots).unwrap();

    let judged = judge_status(Some(500));
    assert_eq!(judged, Err(TransportError::ServerRejected));
    let rejected = finish_commit_upload(&mut slots, Err(TransportError::ServerRejected));
    assert_eq!(rejected, Err(WorkflowError::Transport(TransportError::ServerRejected)));
    assert_eq!(slots, before);

    let second_plan = plan_commit_upload(&credentials(), &slots).unwrap();
    assert_eq!(second_plan, first_plan);
    assert_eq!(judge_status(Some(200)), Ok(()));
    let reply = judge_body(Some(CommitData { file_id: 42 }));
    assert_eq!(finish_commit_upload(&mut slots, reply), Ok(CommitData { file_id: 42 }));
    assert_eq!(slots.commit, Some(CommitData { file_id: 42 }));
    assert_eq!(slots.upload, before.upload);
}

#[test]
fn failed_commit_keeps_an_earlier_committed_file() {
    let mut slots = registered();
    slots.commit = Some(CommitData { file_id: 7 });
    let before = slots.clone();
    for error in [TransportError::Unreachable, TransportError::ServerRejected, TransportError::MalformedResponse].iter() {
        assert_eq!(finish_commit_upload(&mut slots, Err(*error)), Err(WorkflowError::Transport(*error)));
        assert_eq!(slots, before);
    }
}

#[test]
fn submit_without_commit_fails() {
    assert_eq!(plan_submit(&Slots::new(), 10, 20), Err(WorkflowError::NoPendingCommit));
    assert_eq!(plan_submit(&registered(), 10, 20), Err(WorkflowError::NoPendingCommit));
    assert!(WorkflowError::NoPendingCommit.is_no_pending_state());
    assert!(!WorkflowError::FileNotFound.is_no_pending_state());
    assert!(!WorkflowError::Transport(TransportError::Unreachable).is_no_pending_state());
}

#[test]
fn submit_takes_the_committed_file() {
    let slots = Slots { upload: None, commit: Some(CommitData { file_id: 42 }) };
    assert_eq!(
        plan_submit(&slots, 10, 20),
        Ok(SubmissionRequest { course_id: 10, assignment_id: 20, file_id: 42 })
    );
}

#[test]
fn submission_request_names_course_assignment_and_file() {
    let submission = SubmissionRequest { course_id: 10, assignment_id: 20, file_id: 42 };
    let request = submission_request(&credentials(), &submission);
    assert_eq!(request.method, Method::Post);
    assert_eq!(request.url, "https://school.example/api/v1/courses/10/assignments/20/submissions");
    assert_eq!(request.authorization, "Bearer s3cr3t");
    assert_eq!(
        request.form,
        vec![pair("submission[submission_type]", "online_upload"), pair("submission[file_ids][]", "42")]
    );
}

#[test]
fn finished_submit_reports_the_judged_answer() {
    assert_eq!(finish_submit(Ok(())), Ok(()));
    assert_eq!(
        finish_submit(Err(TransportError::ServerRejected)),
        Err(WorkflowError::Transport(TransportError::ServerRejected))
    );
    assert_eq!(
        finish_submit(Err(TransportError::Unreachable)),
        Err(WorkflowError::Transport(TransportError::Unreachable))
    );
}

#[test]
fn whole_workflow_submits_the_committed_file() {
    let credentials = credentials();
    let mut slots = Slots::new();

    let file = essay();
    let first = plan_register_upload(&credentials, Some(&file)).unwrap();
    assert_eq!(first.url, "https://school.example/api/v1/users/self/files");
    assert_eq!(judge_status(Some(200)), Ok(()));
    let reply = judge_body(Some(answer()));
    assert_eq!(finish_register_upload(&mut slots, &file, reply), Ok(()));

    let second = plan_commit_upload(&credentials, &slots).unwrap();
    assert_eq!(second.url, "https://x/upload");
    assert!(second.form.contains(&pair("content_type", "application/pdf")));
    assert_eq!(judge_status(Some(201)), Ok(()));
    let stored = judge_body(Some(CommitData { file_id: 42 }));
    assert_eq!(finish_commit_upload(&mut slots, stored), Ok(CommitData { file_id: 42 }));

    let submission = plan_submit(&slots, 10, 20).unwrap();
    let third = submission_request(&credentials, &submission);
    assert_eq!(third.url, "https://school.example/api/v1/courses/10/assignments/20/submissions");
    assert!(third.form.contains(&pair("submission[file_ids][]", "42")));
    assert!(third.form.contains(&pair("submission[submission_type]", "online_upload")));
    assert_eq!(finish_submit(judge_status(Some(201))), Ok(()));
}

#[test]
fn committed_file_can_be_submitted_again() {
    let mut slots = registered();
    assert_eq!(finish_commit_upload(&mut slots, Ok(CommitData { file_id: 42 })), Ok(CommitData { file_id: 42 }));
    let once = plan_submit(&slots, 10, 20);
    assert_eq!(finish_submit(Ok(())), Ok(()));
    let twice = plan_submit(&slots, 11, 21);
    assert_eq!(once, Ok(SubmissionRequest { course_id: 10, assignment_id: 20, file_id: 42 }));
    assert_eq!(twice, Ok(SubmissionRequest { course_id: 11, assignment_id: 21, file_id: 42 }));
}

#[test]
fn answer_with_every_field() {
    let upload = answer();
    assert_eq!(upload.file_param, Some("file".to_string()));
    assert_eq!(upload.upload_url, Some("https://x/upload".to_string()));
    assert_eq!(
        upload.upload_params,
        Some(UploadParams { filename: Some("f.pdf".to_string()), content_type: Some("application/pdf".to_string()) })
    );
}

#[test]
fn workflow_error_messages() {
    assert_eq!(WorkflowError::FileNotFound.message(), "File could not be read");
    assert_eq!(WorkflowError::NoPendingUpload.message(), "No file was added, add one first");
    assert_eq!(
        WorkflowError::MissingUploadParams.message(),
        "The added file lacks its upload parameters"
    );
    assert_eq!(WorkflowError::NoPendingCommit.message(), "No file was committed, commit one first");
    for error in [TransportError::Unreachable, TransportError::ServerRejected, TransportError::MalformedResponse].iter() {
        assert_eq!(WorkflowError::Transport(*error).message(), error.message());
    }
}
