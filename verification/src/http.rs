//! Requests to the device and what comes back, as plain values.
//!
//! The library never talks to the network. It says which request to send
//! and judges the outcome that the caller reports.

use crate::text::{decimal, push_decimal, to_text};
use vstd::prelude::*;

verus! {

/// The methods that the library asks for.
#[derive(Clone, Copy, Debug, PartialEq, Eq, Structural)]
pub enum HttpMethod {
    Get,
    Post,
    Put,
    Delete,
}

/// One header of a request.
#[derive(Clone, Debug, PartialEq)]
pub struct Header {
    pub name: String,
    pub value: String,
}

/// A request for the caller to send.
#[derive(Clone, Debug, PartialEq)]
pub struct HttpRequest {
    pub method: HttpMethod,
    pub url: String,
    pub headers: Vec<Header>,
    pub body: Option<String>,
    pub timeout_secs: u64,
}

/// What became of a request: a response with its status and body, or the
/// reason why none came.
#[derive(Clone, Debug, PartialEq)]
pub enum HttpOutcome {
    Response { status: u16, body: String },
    TransportError { detail: String },
}

/// A header, as contracts see it.
pub struct HeaderModel {
    pub name: Seq<char>,
    pub value: Seq<char>,
}

/// A request, as contracts see it.
pub struct RequestModel {
    pub method: HttpMethod,
    pub url: Seq<char>,
    pub headers: Seq<HeaderModel>,
    pub body: Option<Seq<char>>,
    pub timeout_secs: u64,
}

/// An outcome, as contracts see it.
pub enum OutcomeModel {
    Response { status: u16, body: Seq<char> },
    TransportError { detail: Seq<char> },
}

impl View for Header {
    type V = HeaderModel;

    open spec fn view(&self) -> HeaderModel {
        HeaderModel { name: self.name@, value: self.value@ }
    }
}

impl View for HttpRequest {
    type V = RequestModel;

    open spec fn view(&self) -> RequestModel {
        RequestModel {
            method: self.method,
            url: self.url@,
            headers: Seq::new(self.headers@.len(), |i: int| self.headers@[i]@),
            body: match self.body {
                Some(b) => Some(b@),
                None => None,
            },
            timeout_secs: self.timeout_secs,
        }
    }
}

impl View for HttpOutcome {
    type V = OutcomeModel;

    open spec fn view(&self) -> OutcomeModel {
        match self {
            HttpOutcome::Response { status, body } => OutcomeModel::Response {
                status: *status,
                body: body@,
            },
            HttpOutcome::TransportError { detail } => OutcomeModel::TransportError {
                detail: detail@,
            },
        }
    }
}

/// The header `name: value`.
pub open spec fn header(name: Seq<char>, value: Seq<char>) -> HeaderModel {
    HeaderModel { name, value }
}

/// A status of the success class.
pub open spec fn is_success(status: u16) -> bool {
    200 <= status < 300
}

/// How an HTTP status code of three digits displays: the number, a space,
/// and its canonical reason phrase.
pub uninterp spec fn status_display(code: u16) -> Seq<char>;

/// A status in words: the display of a three-digit code, and the bare
/// number for any other.
pub open spec fn status_text(status: u16) -> Seq<char> {
    if 100 <= status <= 999 {
        status_display(status)
    } else {
        decimal(status as nat)
    }
}

/// Makes a `reqwest::StatusCode` of the code with `from_u16`, which takes
/// the codes from 100 to 999 and no others, and calls `to_string` on it. The
/// text depends on the code alone: `status_display` names it.
#[verifier::external_body]
fn status_line(code: u16) -> (r: Option<String>)
    ensures
        r is Some <==> 100 <= code <= 999,
        r matches Some(s) ==> s@ == status_display(code),
{
    reqwest::StatusCode::from_u16(code).ok().map(|s| s.to_string())
}

/// Whether a status is of the success class.
pub fn status_is_success(status: u16) -> (r: bool)
    ensures
        r == is_success(status),
{
    200 <= status && status < 300
}

/// A status in words.
pub fn describe_status(status: u16) -> (r: String)
    ensures
        r@ == status_text(status),
{
    match status_line(status) {
        Some(s) => s,
        None => {
            let mut out: Vec<char> = Vec::new();
            push_decimal(&mut out, status as u64);
            to_text(&out)
        },
    }
}

/// The header `name: value`.
pub fn make_header(name: &str, value: String) -> (r: Header)
    ensures
        r@ == header(name@, value@),
{
    Header { name: name.to_string(), value }
}

} // verus!
