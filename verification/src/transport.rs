//! Authenticated requests as values, and the judgement of what came back.
//!
//! A [`Request`] says what is to be sent; sending it is the caller's part.
//! The caller reports the status of the response, or that there was none,
//! and then whether the body could be decoded.

use vstd::prelude::*;
use vstd::string::StringExecFns;

verus! {

/// The two request methods that the client uses.
#[derive(Debug, Clone, Copy, PartialEq, Eq, Structural)]
pub enum Method {
    Get,
    Post,
}

/// Why a call to the server gave no result.
#[derive(Debug, Clone, Copy, PartialEq, Eq, Structural)]
pub enum TransportError {
    /// No response arrived: the name did not resolve, the connection failed
    /// or timed out.
    Unreachable,
    /// A response arrived with a status outside 200 to 299.
    ServerRejected,
    /// A response arrived with a status from 200 to 299, and its body is not
    /// what the call expects.
    MalformedResponse,
}

/// The line for [`TransportError::Unreachable`].
pub const SERVER_UNREACHABLE: &'static str = "The server could not be reached";

/// The line for [`TransportError::ServerRejected`].
pub const SERVER_REJECTED: &'static str = "The server rejected the request";

/// The line for [`TransportError::MalformedResponse`].
pub const ANSWER_MALFORMED: &'static str = "The server's answer was not understood";

impl TransportError {
    /// The line shown to the user for this error.
    pub fn message(&self) -> (text: &'static str)
        ensures
            text@ == match *self {
                TransportError::Unreachable => SERVER_UNREACHABLE@,
                TransportError::ServerRejected => SERVER_REJECTED@,
                TransportError::MalformedResponse => ANSWER_MALFORMED@,
            },
    {
        match self {
            TransportError::Unreachable => SERVER_UNREACHABLE,
            TransportError::ServerRejected => SERVER_REJECTED,
            TransportError::MalformedResponse => ANSWER_MALFORMED,
        }
    }
}

/// One text field of a multipart form.
#[derive(Debug, Clone, PartialEq, Eq)]
pub struct FormField {
    pub name: String,
    pub value: String,
}

impl View for FormField {
    type V = (Seq<char>, Seq<char>);

    open spec fn view(&self) -> (Seq<char>, Seq<char>) {
        (self.name@, self.value@)
    }
}

/// One authenticated request: a `Get` carries no form, a `Post` carries its
/// form as multipart text fields, in order.
#[derive(Debug, Clone, PartialEq, Eq)]
pub struct Request {
    pub method: Method,
    pub url: String,
    /// The value of the `Authorization` header.
    pub authorization: String,
    pub form: Vec<FormField>,
}

/// What a [`Request`] holds, as character sequences.
pub struct RequestView {
    pub method: Method,
    pub url: Seq<char>,
    pub authorization: Seq<char>,
    pub form: Seq<(Seq<char>, Seq<char>)>,
}

impl View for Request {
    type V = RequestView;

    open spec fn view(&self) -> RequestView {
        RequestView {
            method: self.method,
            url: self.url@,
            authorization: self.authorization@,
            form: self.form@.map_values(|f: FormField| f@),
        }
    }
}

/// The `Authorization` header value that carries `token`.
pub open spec fn bearer(token: Seq<char>) -> Seq<char> {
    "Bearer "@ + token
}

/// The `Get` request for `url` on behalf of `token`.
pub open spec fn get_spec(url: Seq<char>, token: Seq<char>) -> RequestView {
    RequestView { method: Method::Get, url, authorization: bearer(token), form: Seq::empty() }
}

/// The `Post` request that sends `form` to `url` on behalf of `token`.
pub open spec fn post_spec(
    url: Seq<char>,
    token: Seq<char>,
    form: Seq<(Seq<char>, Seq<char>)>,
) -> RequestView {
    RequestView { method: Method::Post, url, authorization: bearer(token), form }
}

/// Whether a response with this status counts as accepted.
pub open spec fn is_success(status: u16) -> bool {
    200 <= status < 300
}

/// The judgement of one attempt, before its body is looked at: `status` is
/// the status of the response, `None` when no response arrived.
pub open spec fn judge_status_spec(status: Option<u16>) -> Result<(), TransportError> {
    match status {
        None => Err(TransportError::Unreachable),
        Some(s) => if is_success(s) {
            Ok(())
        } else {
            Err(TransportError::ServerRejected)
        },
    }
}

/// Builds the `Authorization` header value for `token`.
pub fn authorization_header(token: &str) -> (header: String)
    ensures
        header@ == bearer(token@),
{
    String::from_str("Bearer ").concat(token)
}

/// Builds a form field.
pub fn field(name: &str, value: String) -> (f: FormField)
    ensures
        f@ == (name@, value@),
{
    FormField { name: String::from_str(name), value }
}

/// Builds the `Get` request for `url`, authenticated with `token`.
pub fn get_request(url: String, token: &str) -> (request: Request)
    ensures
        request@ == get_spec(url@, token@),
{
    let request = Request {
        method: Method::Get,
        url,
        authorization: authorization_header(token),
        form: Vec::new(),
    };
    assert(request@.form =~= Seq::empty());
    request
}

/// Builds the `Post` request that sends `form` to `url`, authenticated
/// with `token`.
pub fn post_request(url: String, token: &str, form: Vec<FormField>) -> (request: Request)
    ensures
        request@ == post_spec(url@, token@, form@.map_values(|f: FormField| f@)),
{
    Request { method: Method::Post, url, authorization: authorization_header(token), form }
}

/// Judges one attempt by its status alone. No response is `Unreachable`; a
/// status outside 200 to 299 is `ServerRejected`, whatever the body holds.
pub fn judge_status(status: Option<u16>) -> (r: Result<(), TransportError>)
    ensures
        r == judge_status_spec(status),
{
    match status {
        None => Err(TransportError::Unreachable),
        Some(s) => {
            if 200 <= s && s < 300 {
                Ok(())
            } else {
                Err(TransportError::ServerRejected)
            }
        },
    }
}

/// Judges the body of an accepted response: `decoded` is the value that the
/// body was decoded to, `None` when it did not have the expected shape.
pub fn judge_body<T>(decoded: Option<T>) -> (r: Result<T, TransportError>)
    ensures
        r == match decoded {
            Some(value) => Ok::<T, TransportError>(value),
            None => Err::<T, TransportError>(TransportError::MalformedResponse),
        },
{
    match decoded {
        Some(value) => Ok(value),
        None => Err(TransportError::MalformedResponse),
    }
}

} // verus!
