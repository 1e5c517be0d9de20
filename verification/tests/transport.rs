use canvas_cli::session::env_file_contents;
use canvas_cli::session::login_outcome;
use canvas_cli::session::login_request;
use canvas_cli::session::Credentials;
use canvas_cli::session::CredentialsMissing;
use canvas_cli::transport::authorization_header;
use canvas_cli::transport::field;
use canvas_cli::transport::get_request;
use canvas_cli::transport::judge_body;
use canvas_cli::transport::judge_status;
use canvas_cli::transport::post_request;
use canvas_cli::transport::FormField;
use canvas_cli::transport::Method;
use canvas_cli::transport::TransportError;

#[test]
fn authorization_is_a_bearer_token() {
    assert_eq!(authorization_header("abc123"), "Bearer abc123");
    assert_eq!(authorization_header(""), "Bearer ");
}

#[test]
fn get_request_has_no_form() {
    let request = get_request("https://x/y".to_string(), "t");
    assert_eq!(request.method, Method::Get);
    assert_eq!(request.url, "https://x/y");
    assert_eq!(request.authorization, "Bearer t");
    assert!(request.form.is_empty());
}

#[test]
fn post_request_keeps_the_form_in_order() {
    let form = vec![field("b", "2".to_string()), field("a", "1".to_string())];
    let request = post_request("https://x/y".to_string(), "t", form);
    assert_eq!(request.method, Method::Post);
    assert_eq!(request.url, "https://x/y");
    assert_eq!(request.authorization, "Bearer t");
    assert_eq!(
        request.form,
        vec![
            FormField { name: "b".to_string(), value: "2".to_string() },
            FormField { name: "a".to_string(), value: "1".to_string() },
        ]
    );
}

#[test]
fn no_response_is_unreachable() {
    assert_eq!(judge_status(None), Err(TransportError::Unreachable));
}

#[test]
fn statuses_from_200_to_299_are_accepted() {
    assert_eq!(judge_status(Some(200)), Ok(()));
    assert_eq!(judge_status(Some(201)), Ok(()));
    assert_eq!(judge_status(Some(204)), Ok(()));
    assert_eq!(judge_status(Some(299)), Ok(()));
}

#[test]
fn other_statuses_are_rejected() {
    for status in [0u16, 100, 199, 300, 301, 400, 401, 404, 500, 503, 65535].iter() {
        assert_eq!(judge_status(Some(*status)), Err(TransportError::ServerRejected));
    }
}

#[test]
fn undecoded_body_is_malformed() {
    assert_eq!(judge_body::<i64>(None), Err(TransportError::MalformedResponse));
    assert_eq!(judge_body(Some(42)), Ok(42));
    assert_eq!(judge_body(Some("body".to_string())), Ok("body".to_string()));
}

#[test]
fn credentials_need_both_values() {
    assert_eq!(
        Credentials::load(Some("t".to_string()), Some("https://x".to_string())),
        Ok(Credentials { bearer_token: "t".to_string(), base_url: "https://x".to_string() })
    );
    assert_eq!(Credentials::load(None, Some("https://x".to_string())), Err(CredentialsMissing));
    assert_eq!(Credentials::load(Some("t".to_string()), None), Err(CredentialsMissing));
    assert_eq!(Credentials::load(None, None), Err(CredentialsMissing));
}

#[test]
fn login_asks_for_the_courses() {
    let request = login_request("https://school.example", "tok");
    assert_eq!(request.method, Method::Get);
    assert_eq!(request.url, "https://school.example/api/v1/courses");
    assert_eq!(request.authorization, "Bearer tok");
    assert!(request.form.is_empty());
}

#[test]
fn credentials_file_has_two_lines() {
    assert_eq!(
        env_file_contents("tok", "https://school.example"),
        "CANVAS_AUTH_TOKEN=tok\nSCHOOL_BASE_URL=https://school.example\n"
    );
    assert_eq!(env_file_contents("", ""), "CANVAS_AUTH_TOKEN=\nSCHOOL_BASE_URL=\n");
}

#[test]
fn login_stores_only_when_answered() {
    assert_eq!(
        login_outcome(true, "tok", "https://x"),
        Some("CANVAS_AUTH_TOKEN=tok\nSCHOOL_BASE_URL=https://x\n".to_string())
    );
    assert_eq!(login_outcome(false, "tok", "https://x"), None);
}

#[test]
fn variable_names_of_the_credentials() {
    assert_eq!(canvas_cli::session::AUTH_TOKEN_VARIABLE, "CANVAS_AUTH_TOKEN");
    assert_eq!(canvas_cli::session::BASE_URL_VARIABLE, "SCHOOL_BASE_URL");
}

#[test]
fn transport_error_messages() {
    assert_eq!(TransportError::Unreachable.message(), "The server could not be reached");
    assert_eq!(TransportError::ServerRejected.message(), "The server rejected the request");
    assert_eq!(TransportError::MalformedResponse.message(), "The server's answer was not understood");
    assert_eq!(CredentialsMissing.message(), "No credentials stored, log in first");
}
