//! The two secrets of a session, the bearer token and the school's base
//! address, and the login that stores them.

use crate::transport::get_request;
use crate::transport::get_spec;
use crate::transport::Request;
use vstd::prelude::*;
use vstd::string::StringExecFns;

verus! {

/// The name under which the bearer token is stored.
pub const AUTH_TOKEN_VARIABLE: &'static str = "CANVAS_AUTH_TOKEN";

/// The name under which the school's base address is stored.
pub const BASE_URL_VARIABLE: &'static str = "SCHOOL_BASE_URL";

/// The two secrets that every call to the server needs.
#[derive(Debug, Clone, PartialEq, Eq)]
pub struct Credentials {
    pub bearer_token: String,
    pub base_url: String,
}

/// What a [`Credentials`] holds, as character sequences.
pub struct CredentialsView {
    pub bearer_token: Seq<char>,
    pub base_url: Seq<char>,
}

impl View for Credentials {
    type V = CredentialsView;

    open spec fn view(&self) -> CredentialsView {
        CredentialsView { bearer_token: self.bearer_token@, base_url: self.base_url@ }
    }
}

/// The token or the base address is not stored.
#[derive(Debug, Clone, Copy, PartialEq, Eq, Structural)]
pub struct CredentialsMissing;

/// The line for [`CredentialsMissing`].
pub const NO_CREDENTIALS: &'static str = "No credentials stored, log in first";

impl CredentialsMissing {
    /// The line shown to the user for this error.
    pub fn message(&self) -> (text: &'static str)
        ensures
            text@ == NO_CREDENTIALS@,
    {
        NO_CREDENTIALS
    }
}

impl Credentials {
    /// The credentials made of the two stored values, when both are there.
    pub fn load(bearer_token: Option<String>, base_url: Option<String>) -> (r: Result<
        Credentials,
        CredentialsMissing,
    >)
        ensures
            r == match (bearer_token, base_url) {
                (Some(token), Some(url)) => Ok::<Credentials, CredentialsMissing>(
                    Credentials { bearer_token: token, base_url: url },
                ),
                _ => Err::<Credentials, CredentialsMissing>(CredentialsMissing),
            },
    {
        match (bearer_token, base_url) {
            (Some(token), Some(url)) => Ok(Credentials { bearer_token: token, base_url: url }),
            _ => Err(CredentialsMissing),
        }
    }
}

/// The address that a login asks, to see whether the server answers.
pub open spec fn login_url(school_url: Seq<char>) -> Seq<char> {
    school_url + "/api/v1/courses"@
}

/// The text of the credentials file: one `NAME=value` line for the token,
/// then one for the base address.
pub open spec fn env_file_spec(auth_token: Seq<char>, school_url: Seq<char>) -> Seq<char> {
    AUTH_TOKEN_VARIABLE@ + "="@ + auth_token + "\n"@ + BASE_URL_VARIABLE@ + "="@ + school_url
        + "\n"@
}

/// Builds the request by which a login tries the address and the token
/// that the user typed.
pub fn login_request(school_url: &str, auth_token: &str) -> (request: Request)
    ensures
        request@ == get_spec(login_url(school_url@), auth_token@),
{
    get_request(String::from_str(school_url).concat("/api/v1/courses"), auth_token)
}

/// Builds the text of the credentials file.
pub fn env_file_contents(auth_token: &str, school_url: &str) -> (text: String)
    ensures
        text@ == env_file_spec(auth_token@, school_url@),
{
    let mut text = String::from_str(AUTH_TOKEN_VARIABLE);
    text.append("=");
    text.append(auth_token);
    text.append("\n");
    text.append(BASE_URL_VARIABLE);
    text.append("=");
    text.append(school_url);
    text.append("\n");
    text
}

/// Decides what a login stores: the text of the credentials file when the
/// server answered the login request, nothing when no response arrived.
pub fn login_outcome(answered: bool, auth_token: &str, school_url: &str) -> (text: Option<String>)
    ensures
        text is Some <==> answered,
        text matches Some(t) ==> t@ == env_file_spec(auth_token@, school_url@),
{
    if answered {
        Some(env_file_contents(auth_token, school_url))
    } else {
        None
    }
}

} // verus!
