//! Requests to the proving platform and what comes back for them, as plain
//! values. Whoever drives the adapter sends each request and hands back the
//! outcome of each attempt.
use vstd::prelude::*;
use vstd::string::*;
use crate::decode::{DecodeError, DecodeErrorView};
use crate::text::{decimal, to_decimal};

verus! {

/// The two methods the adapter uses.
#[derive(Clone, Copy, Debug, PartialEq, Eq, Structural)]
pub enum Method {
    Get,
    Post,
}

/// The name of the header that says what kind of body a request carries.
pub const CONTENT_TYPE_HEADER: &'static str = "Content-Type";

/// The kind of body that every request declares.
pub const CONTENT_TYPE_JSON: &'static str = "application/json";

/// The name of the header that carries the API key.
pub const API_KEY_HEADER: &'static str = "X-Api-Key";

/// One header of a request. It has no `Debug`: a header may hold the API key,
/// which is not for printing.
#[derive(Clone, PartialEq, Eq)]
pub struct Header {
    pub name: String,
    pub value: String,
}

impl View for Header {
    type V = (Seq<char>, Seq<char>);

    open spec fn view(&self) -> (Seq<char>, Seq<char>) {
        (self.name@, self.value@)
    }
}

/// A request for the transport to send. Like its headers, it has no `Debug`.
#[derive(Clone, PartialEq, Eq)]
pub struct HttpRequest {
    pub method: Method,
    pub url: String,
    pub headers: Vec<Header>,
    /// The body, JSON text; `None` for a request without one.
    pub body: Option<String>,
    /// How long one attempt may take before it counts as failed.
    pub timeout_sec: u64,
}

pub struct HttpRequestView {
    pub method: Method,
    pub url: Seq<char>,
    pub headers: Seq<(Seq<char>, Seq<char>)>,
    pub body: Option<Seq<char>>,
    pub timeout_sec: u64,
}

impl View for HttpRequest {
    type V = HttpRequestView;

    open spec fn view(&self) -> HttpRequestView {
        HttpRequestView {
            method: self.method,
            url: self.url@,
            headers: Seq::new(self.headers@.len(), |i: int| self.headers@[i]@),
            body: match self.body {
                Some(body) => Some(body@),
                None => None,
            },
            timeout_sec: self.timeout_sec,
        }
    }
}

/// The two headers that every request carries: the content type, then the API
/// key.
pub open spec fn standard_headers(api_key: Seq<char>) -> Seq<(Seq<char>, Seq<char>)> {
    seq![(CONTENT_TYPE_HEADER@, CONTENT_TYPE_JSON@), (API_KEY_HEADER@, api_key)]
}

/// The request that an authenticated call amounts to: the URL is the base URL
/// followed by the path, the headers are the two standard ones.
pub open spec fn authenticated_request(
    method: Method,
    base_url: Seq<char>,
    path: Seq<char>,
    api_key: Seq<char>,
    body: Option<Seq<char>>,
    timeout_sec: u64,
) -> HttpRequestView {
    HttpRequestView {
        method,
        url: base_url + path,
        headers: standard_headers(api_key),
        body,
        timeout_sec,
    }
}

/// Builds an authenticated request.
pub fn build_request(
    method: Method,
    base_url: &str,
    path: &str,
    api_key: &str,
    body: Option<String>,
    timeout_sec: u64,
) -> (r: HttpRequest)
    ensures
        r@ == authenticated_request(
            method,
            base_url@,
            path@,
            api_key@,
            match body {
                Some(b) => Some(b@),
                None => None,
            },
            timeout_sec,
        ),
{
    let url = String::from_str(base_url).concat(path);
    let mut headers: Vec<Header> = Vec::new();
    headers.push(
        Header {
            name: String::from_str(CONTENT_TYPE_HEADER),
            value: String::from_str(CONTENT_TYPE_JSON),
        },
    );
    headers.push(
        Header { name: String::from_str(API_KEY_HEADER), value: String::from_str(api_key) },
    );
    let r = HttpRequest { method, url, headers, body, timeout_sec };
    assert(r@.headers =~= standard_headers(api_key@));
    r
}

/// How one attempt at a request ended.
#[derive(Clone, Debug, PartialEq, Eq)]
pub enum HttpOutcome {
    /// No response came: the connection failed, or the attempt ran out of
    /// time. The field holds the transport's account of it.
    Transport(String),
    /// A response came, with this status and body.
    Response { status: u16, body: String },
}

pub enum HttpOutcomeView {
    Transport(Seq<char>),
    Response { status: u16, body: Seq<char> },
}

impl View for HttpOutcome {
    type V = HttpOutcomeView;

    open spec fn view(&self) -> HttpOutcomeView {
        match self {
            HttpOutcome::Transport(message) => HttpOutcomeView::Transport(message@),
            HttpOutcome::Response { status, body } => HttpOutcomeView::Response {
                status: *status,
                body: body@,
            },
        }
    }
}

/// The statuses that count as success: 200, 201 and 202, and no others.
pub open spec fn spec_is_success_status(status: u16) -> bool {
    200 <= status <= 202
}

#[verifier::when_used_as_spec(spec_is_success_status)]
pub fn is_success_status(status: u16) -> (r: bool)
    ensures
        r == spec_is_success_status(status),
{
    200 <= status && status <= 202
}

/// Why a request brought no usable answer.
#[derive(Clone, Debug, PartialEq, Eq)]
pub enum RequestError {
    /// No response came.
    Transport(String),
    /// A response came with a status that does not count as success.
    Status(u16),
    /// A response came with a body that could not be read.
    Payload(DecodeError),
}

pub enum RequestErrorView {
    Transport(Seq<char>),
    Status(u16),
    Payload(DecodeErrorView),
}

impl View for RequestError {
    type V = RequestErrorView;

    open spec fn view(&self) -> RequestErrorView {
        match self {
            RequestError::Transport(message) => RequestErrorView::Transport(message@),
            RequestError::Status(status) => RequestErrorView::Status(*status),
            RequestError::Payload(error) => RequestErrorView::Payload(error@),
        }
    }
}

impl RequestErrorView {
    /// The sentence that reports this error. A status error names the status
    /// in decimal.
    pub open spec fn message(self) -> Seq<char> {
        match self {
            RequestErrorView::Transport(message) => "request failed: "@ + message,
            RequestErrorView::Status(status) => "status not ok: "@ + decimal(status as nat),
            RequestErrorView::Payload(error) => error.message(),
        }
    }
}

impl RequestError {
    /// The sentence that reports this error.
    pub fn message(&self) -> (r: String)
        ensures
            r@ == self@.message(),
    {
        match self {
            RequestError::Transport(message) => {
                String::from_str("request failed: ").concat(message.as_str())
            },
            RequestError::Status(status) => {
                let code = to_decimal(*status as u64);
                String::from_str("status not ok: ").concat(code.as_str())
            },
            RequestError::Payload(error) => error.message(),
        }
    }
}

/// The body that an outcome delivers: that of a response with a status that
/// counts as success. Every other outcome is an error.
pub open spec fn accepted_body(outcome: HttpOutcomeView) -> Result<Seq<char>, RequestErrorView> {
    match outcome {
        HttpOutcomeView::Transport(message) => Err(RequestErrorView::Transport(message)),
        HttpOutcomeView::Response { status, body } => if spec_is_success_status(status) {
            Ok(body)
        } else {
            Err(RequestErrorView::Status(status))
        },
    }
}

impl HttpOutcome {
    /// The body of a successful response, or the reason why there is none.
    pub fn body(&self) -> (r: Result<&str, RequestError>)
        ensures
            match r {
                Ok(body) => accepted_body(self@) == Ok::<Seq<char>, RequestErrorView>(body@),
                Err(error) => accepted_body(self@) == Err::<Seq<char>, RequestErrorView>(error@),
            },
    {
        match self {
            HttpOutcome::Transport(message) => Err(RequestError::Transport(message.clone())),
            HttpOutcome::Response { status, body } => {
                if is_success_status(*status) {
                    Ok(body.as_str())
                } else {
                    Err(RequestError::Status(*status))
                }
            },
        }
    }
}

} // verus!
