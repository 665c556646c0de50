//! Pushing a program to the device.
//!
//! The device's interface differs between firmware variants, so an upload is
//! a short negotiation: a POST to the program's path, then a PUT to the same
//! path, then, where the caller names another endpoint, a POST to that. The
//! first attempt that succeeds ends it. `UploadSession` holds the state
//! between attempts: the caller sends the request that `request` gives and
//! hands the outcome to `advance`.

use crate::http::{
    describe_status, header, is_success, make_header, status_is_success, status_text, Header,
    HttpMethod, HttpOutcome, HttpRequest, OutcomeModel, RequestModel,
};
use crate::json::{error_detail, json_render, render_json};
use crate::recipe::{
    build_custom_program_payload, build_result, payload_json, RecipeError, RecipeErrorModel,
};
use crate::text::{
    concat2, concat3, contains_chars, has_prefix, has_substring, hex_tail, join, join_texts,
    lowercase, prefix, push_hex_tail, push_text, same_text, starts_with, take_text,
    texts, to_chars, to_lowercase, to_text, trim, trimmed,
};
use vstd::prelude::*;

verus! {

/// Seconds that one upload attempt may take.
pub const UPLOAD_TIMEOUT_SECS: u64 = 12;

/// Seconds that a delete may take.
pub const DELETE_TIMEOUT_SECS: u64 = 8;

/// Characters of a response body that are kept for messages and the trace.
pub const BODY_SNIPPET_CHARS: usize = 180;

/// Characters of the outgoing payload that are kept for the trace.
pub const PAYLOAD_SNIPPET_CHARS: usize = 360;

/// A program on the device.
#[derive(Clone, Debug, PartialEq)]
pub struct AgoProgram {
    pub filename: String,
    pub display_name: String,
}

/// What a successful upload reports.
#[derive(Clone, Debug, PartialEq)]
pub struct UploadResult {
    pub message: String,
    pub ago_filename: String,
}

/// Why an upload gave no result.
#[derive(Clone, Debug, PartialEq)]
pub enum UploadError {
    /// No payload could be built from the recipe.
    InvalidRecipe(RecipeError),
    /// The payload could not be rendered; the detail is the renderer's.
    Serialize(String),
    /// Every attempt failed; the message describes each in turn.
    Failed(String),
}

/// Which attempt is at hand.
#[derive(Clone, Copy, Debug, PartialEq, Eq, Structural)]
pub enum UploadStage {
    Primary,
    Fallback,
    Legacy,
}

/// An upload between two attempts.
#[derive(Clone, Debug, PartialEq)]
pub struct UploadSession {
    pub ip: String,
    pub endpoint: String,
    pub filename: String,
    pub payload_text: String,
    pub ago_filename: String,
    pub stage: UploadStage,
    pub attempts: Vec<String>,
    pub trace: Vec<String>,
}

/// How an upload ended, and the lines to put into the trace log.
#[derive(Debug, PartialEq)]
pub struct UploadReport {
    pub result: Result<UploadResult, UploadError>,
    pub trace: Vec<String>,
}

/// What follows an attempt: another one, or the end.
#[derive(Debug, PartialEq)]
pub enum UploadProgress {
    Continue(UploadSession),
    Finished(UploadReport),
}

/// An upload result, as contracts see it.
pub struct UploadResultModel {
    pub message: Seq<char>,
    pub ago_filename: Seq<char>,
}

/// An upload error, as contracts see it.
pub enum UploadErrorModel {
    InvalidRecipe(RecipeErrorModel),
    Serialize(Seq<char>),
    Failed(Seq<char>),
}

/// A session, as contracts see it.
pub struct SessionModel {
    pub ip: Seq<char>,
    pub endpoint: Seq<char>,
    pub filename: Seq<char>,
    pub payload_text: Seq<char>,
    pub ago_filename: Seq<char>,
    pub stage: UploadStage,
    pub attempts: Seq<Seq<char>>,
    pub trace: Seq<Seq<char>>,
}

/// A report, as contracts see it.
pub struct ReportModel {
    pub result: Result<UploadResultModel, UploadErrorModel>,
    pub trace: Seq<Seq<char>>,
}

/// What follows an attempt, as contracts see it.
pub enum ProgressModel {
    Continue(SessionModel),
    Finished(ReportModel),
}

impl View for UploadResult {
    type V = UploadResultModel;

    open spec fn view(&self) -> UploadResultModel {
        UploadResultModel { message: self.message@, ago_filename: self.ago_filename@ }
    }
}

impl View for UploadError {
    type V = UploadErrorModel;

    open spec fn view(&self) -> UploadErrorModel {
        match self {
            UploadError::InvalidRecipe(e) => UploadErrorModel::InvalidRecipe(e@),
            UploadError::Serialize(detail) => UploadErrorModel::Serialize(detail@),
            UploadError::Failed(message) => UploadErrorModel::Failed(message@),
        }
    }
}

impl View for UploadSession {
    type V = SessionModel;

    open spec fn view(&self) -> SessionModel {
        SessionModel {
            ip: self.ip@,
            endpoint: self.endpoint@,
            filename: self.filename@,
            payload_text: self.payload_text@,
            ago_filename: self.ago_filename@,
            stage: self.stage,
            attempts: texts(self.attempts@),
            trace: texts(self.trace@),
        }
    }
}

impl View for UploadReport {
    type V = ReportModel;

    open spec fn view(&self) -> ReportModel {
        ReportModel {
            result: match self.result {
                Ok(r) => Ok(r@),
                Err(e) => Err(e@),
            },
            trace: texts(self.trace@),
        }
    }
}

impl View for UploadProgress {
    type V = ProgressModel;

    open spec fn view(&self) -> ProgressModel {
        match self {
            UploadProgress::Continue(s) => ProgressModel::Continue(s@),
            UploadProgress::Finished(r) => ProgressModel::Finished(r@),
        }
    }
}

/// The address of the program `name` on the device at `ip`.
pub open spec fn program_url(ip: Seq<char>, name: Seq<char>) -> Seq<char> {
    "http://"@ + ip + "/api/files/programs/custom/"@ + name
}

/// The full address that an endpoint setting stands for: itself where it is
/// an absolute address, else a path on the device, with a slash put before
/// it where it has none.
pub open spec fn normalized_url(ip: Seq<char>, endpoint: Seq<char>) -> Seq<char> {
    if has_prefix(endpoint, "http://"@) || has_prefix(endpoint, "https://"@) {
        endpoint
    } else if has_prefix(endpoint, "/"@) {
        "http://"@ + ip + endpoint
    } else {
        "http://"@ + ip + "/"@ + endpoint
    }
}

/// The name under which a program uploaded at `nanos` is stored.
pub open spec fn program_filename(nanos: nat) -> Seq<char> {
    "_P_C0_"@ + hex_tail(nanos, 8) + ".txt"@
}

/// Whether a trimmed, lower-case body shows that it is an HTML document.
pub open spec fn html_marked(lower: Seq<char>) -> bool {
    has_substring(lower, "<!doctype html"@) || has_substring(lower, "<html"@)
}

/// Whether a body looks like an HTML document.
pub open spec fn html_like(body: Seq<char>) -> bool {
    html_marked(lowercase(trim(body)))
}

/// Whether the endpoint setting asks for an attempt of its own.
pub open spec fn legacy_applies(endpoint: Seq<char>) -> bool {
    trim(endpoint).len() > 0 && trim(endpoint) != "/api/files/programs/custom"@
}

/// Whether an outcome counts as a success.
pub open spec fn succeeds(o: OutcomeModel) -> bool {
    o matches OutcomeModel::Response { status, body } && is_success(status) && !html_like(body)
}

/// The address that the attempt at hand goes to.
pub open spec fn attempt_url(s: SessionModel) -> Seq<char> {
    match s.stage {
        UploadStage::Legacy => normalized_url(s.ip, s.endpoint),
        _ => program_url(s.ip, s.ago_filename),
    }
}

/// Method and address of the attempt at hand, as messages show them.
pub open spec fn attempt_label(s: SessionModel) -> Seq<char> {
    match s.stage {
        UploadStage::Primary => "POST "@ + attempt_url(s),
        UploadStage::Fallback => "PUT "@ + attempt_url(s),
        UploadStage::Legacy => "POST "@ + attempt_url(s) + " raw-json"@,
    }
}

/// The request of the attempt at hand.
pub open spec fn request_of(s: SessionModel) -> RequestModel {
    let content_type = header("Content-Type"@, "application/json"@);
    match s.stage {
        UploadStage::Primary => RequestModel {
            method: HttpMethod::Post,
            url: attempt_url(s),
            headers: seq![
                header("Accept"@, "application/json, text/plain, */*"@),
                header("Origin"@, "http://"@ + s.ip),
                header("Referer"@, "http://"@ + s.ip + "/programs"@),
                content_type,
            ],
            body: Some(s.payload_text),
            timeout_secs: UPLOAD_TIMEOUT_SECS,
        },
        UploadStage::Fallback => RequestModel {
            method: HttpMethod::Put,
            url: attempt_url(s),
            headers: seq![content_type],
            body: Some(s.payload_text),
            timeout_secs: UPLOAD_TIMEOUT_SECS,
        },
        UploadStage::Legacy => RequestModel {
            method: HttpMethod::Post,
            url: attempt_url(s),
            headers: seq![content_type],
            body: Some(s.payload_text),
            timeout_secs: UPLOAD_TIMEOUT_SECS,
        },
    }
}

/// How a failed attempt is described.
pub open spec fn attempt_entry(s: SessionModel, o: OutcomeModel) -> Seq<char> {
    match o {
        OutcomeModel::Response { status, body } => attempt_label(s) + " -> HTTP "@ + status_text(
            status,
        ) + " ("@ + prefix(body, BODY_SNIPPET_CHARS as int) + ")"@,
        OutcomeModel::TransportError { detail } => attempt_label(s) + " -> "@ + detail,
    }
}

/// What a successful attempt reports.
pub open spec fn success_message(s: SessionModel) -> Seq<char> {
    match s.stage {
        UploadStage::Primary => "Uploaded "@ + s.filename + " to AGO as "@ + s.ago_filename
            + " via API"@,
        UploadStage::Fallback => "Uploaded "@ + s.filename + " to AGO as "@ + s.ago_filename
            + " via API (PUT)"@,
        UploadStage::Legacy => "Uploaded "@ + s.filename + " via compatibility endpoint "@
            + attempt_url(s),
    }
}

/// What the failed attempts amount to.
pub open spec fn failure_message(attempts: Seq<Seq<char>>) -> Seq<char> {
    "Upload failed. Tried: "@ + join(attempts, "; "@)
}

/// `s` at another stage, with the given attempts behind it.
pub open spec fn with_stage(
    s: SessionModel,
    stage: UploadStage,
    attempts: Seq<Seq<char>>,
) -> SessionModel {
    SessionModel {
        ip: s.ip,
        endpoint: s.endpoint,
        filename: s.filename,
        payload_text: s.payload_text,
        ago_filename: s.ago_filename,
        stage,
        attempts,
        trace: s.trace,
    }
}

/// The trace lines for attempts that failed, one for each, in their order.
pub open spec fn attempt_lines(attempts: Seq<Seq<char>>) -> Seq<Seq<char>> {
    Seq::new(attempts.len(), |i: int| "attempt="@ + attempts[i])
}

/// What follows a success with the given status and body: the end, with
/// the message, and a trace that records every attempt: a line for each one
/// that failed before, then the success with its status and the start of
/// its body.
pub open spec fn success_step(s: SessionModel, status: u16, body: Seq<char>) -> ProgressModel {
    let message = success_message(s);
    let base = (s.trace + attempt_lines(s.attempts)).push("success="@ + message);
    let snippet = prefix(body, BODY_SNIPPET_CHARS as int);
    let trace = match s.stage {
        UploadStage::Primary => base.push("primary_status="@ + status_text(status)).push(
            "primary_body="@ + snippet,
        ),
        UploadStage::Fallback => base.push("put_status="@ + status_text(status)).push(
            "put_body="@ + snippet,
        ),
        UploadStage::Legacy => base.push("legacy_status="@ + status_text(status)).push(
            "legacy_body="@ + snippet,
        ),
    };
    ProgressModel::Finished(
        ReportModel {
            result: Ok(UploadResultModel { message, ago_filename: s.ago_filename }),
            trace,
        },
    )
}

/// What follows a failed attempt that is described by `entry`.
pub open spec fn failure_step(s: SessionModel, entry: Seq<char>) -> ProgressModel {
    let attempts = s.attempts.push(entry);
    if s.stage == UploadStage::Primary {
        ProgressModel::Continue(with_stage(s, UploadStage::Fallback, attempts))
    } else if s.stage == UploadStage::Fallback && legacy_applies(s.endpoint) {
        ProgressModel::Continue(with_stage(s, UploadStage::Legacy, attempts))
    } else {
        let message = failure_message(attempts);
        ProgressModel::Finished(
            ReportModel {
                result: Err(UploadErrorModel::Failed(message)),
                trace: s.trace.push("error="@ + message),
            },
        )
    }
}

/// What follows the attempt at hand, given its outcome.
pub open spec fn step_spec(s: SessionModel, o: OutcomeModel) -> ProgressModel {
    match o {
        OutcomeModel::Response { status, body } => if succeeds(o) {
            success_step(s, status, body)
        } else {
            failure_step(s, attempt_entry(s, o))
        },
        OutcomeModel::TransportError { .. } => failure_step(s, attempt_entry(s, o)),
    }
}

/// The session before its first attempt.
pub open spec fn initial_session(
    ip: Seq<char>,
    endpoint: Seq<char>,
    field_name: Seq<char>,
    filename: Seq<char>,
    payload_text: Seq<char>,
    nanos: nat,
) -> SessionModel {
    SessionModel {
        ip,
        endpoint,
        filename,
        payload_text,
        ago_filename: program_filename(nanos),
        stage: UploadStage::Primary,
        attempts: Seq::empty(),
        trace: seq![
            "ip="@ + ip,
            "endpoint_setting="@ + endpoint,
            "field_setting="@ + field_name,
            "filename="@ + filename,
            "custom_payload="@ + prefix(payload_text, PAYLOAD_SNIPPET_CHARS as int),
            "primary_url="@ + program_url(ip, program_filename(nanos)),
        ],
    }
}

/// The full address that an endpoint setting stands for on the device at
/// `ip`.
pub fn normalize_url(ip: &str, endpoint: &str) -> (r: String)
    ensures
        r@ == normalized_url(ip@, endpoint@),
{
    let chars = to_chars(endpoint);
    if starts_with(&chars, &to_chars("http://")) || starts_with(&chars, &to_chars("https://")) {
        endpoint.to_string()
    } else if starts_with(&chars, &to_chars("/")) {
        concat3("http://", ip, endpoint)
    } else {
        concat3(concat2("http://", ip).as_str(), "/", endpoint)
    }
}

/// The eight lowest hexadecimal digits of a time in nanoseconds.
pub fn short_upload_token(nanos: u128) -> (r: String)
    ensures
        r@ == hex_tail(nanos as nat, 8),
{
    let mut out: Vec<char> = Vec::new();
    push_hex_tail(&mut out, nanos, 8);
    to_text(&out)
}

/// The name under which a program that is uploaded at the time `nanos`,
/// in nanoseconds, is stored on the device.
pub fn build_custom_program_filename(nanos: u128) -> (r: String)
    ensures
        r@ == program_filename(nanos as nat),
{
    let token = short_upload_token(nanos);
    concat3("_P_C0_", token.as_str(), ".txt")
}

/// Whether a text that is trimmed and in lower case shows an HTML document.
pub fn has_html_marker(lower: &str) -> (r: bool)
    ensures
        r == html_marked(lower@),
{
    let chars = to_chars(lower);
    contains_chars(&chars, &to_chars("<!doctype html")) || contains_chars(
        &chars,
        &to_chars("<html"),
    )
}

/// Whether a response body looks like an HTML document: trimmed and in
/// lower case, it holds a document type declaration or an opening `html`
/// tag. A JSON body that quotes such a tag is taken for HTML too.
pub fn looks_like_html(body: &str) -> (r: bool)
    ensures
        r == html_like(body@),
{
    let kept = trimmed(body);
    let lower = to_lowercase(kept.as_str());
    has_html_marker(lower.as_str())
}

/// The address of the program `name` on the device at `ip`.
pub fn build_program_url(ip: &str, name: &str) -> (r: String)
    ensures
        r@ == program_url(ip@, name@),
{
    concat3(concat2("http://", ip).as_str(), "/api/files/programs/custom/", name)
}

/// Whether the endpoint setting asks for an attempt of its own: it is not
/// blank and not the path of the programs.
pub fn endpoint_needs_attempt(endpoint: &str) -> (r: bool)
    ensures
        r == legacy_applies(endpoint@),
{
    let kept = trimmed(endpoint);
    !kept.as_str().is_empty() && !same_text(kept.as_str(), "/api/files/programs/custom")
}

impl UploadError {
    /// The words for an error.
    pub open spec fn message_text(e: UploadErrorModel) -> Seq<char> {
        match e {
            UploadErrorModel::InvalidRecipe(inner) => RecipeError::message_text(inner),
            UploadErrorModel::Serialize(detail) => "Failed to serialize upload payload: "@ + detail,
            UploadErrorModel::Failed(message) => message,
        }
    }

    /// The error in words.
    pub fn message(&self) -> (r: String)
        ensures
            r@ == Self::message_text(self@),
    {
        match self {
            UploadError::InvalidRecipe(inner) => inner.message(),
            UploadError::Serialize(detail) => concat2(
                "Failed to serialize upload payload: ",
                detail.as_str(),
            ),
            UploadError::Failed(message) => message.clone(),
        }
    }
}

impl UploadSession {
    /// A session before its first attempt, for a payload that is rendered
    /// already and an upload that starts at the time `nanos`.
    pub fn open(
        ip: &str,
        endpoint: &str,
        field_name: &str,
        filename: &str,
        payload_text: String,
        nanos: u128,
    ) -> (r: UploadSession)
        ensures
            r@ == initial_session(
                ip@,
                endpoint@,
                field_name@,
                filename@,
                payload_text@,
                nanos as nat,
            ),
    {
        let ago_filename = build_custom_program_filename(nanos);
        let url = build_program_url(ip, ago_filename.as_str());
        let snippet = take_text(payload_text.as_str(), PAYLOAD_SNIPPET_CHARS);
        let mut trace: Vec<String> = Vec::new();
        assert(texts(trace@) =~= Seq::<Seq<char>>::empty());
        push_text(&mut trace, concat2("ip=", ip));
        push_text(&mut trace, concat2("endpoint_setting=", endpoint));
        push_text(&mut trace, concat2("field_setting=", field_name));
        push_text(&mut trace, concat2("filename=", filename));
        push_text(&mut trace, concat2("custom_payload=", snippet.as_str()));
        push_text(&mut trace, concat2("primary_url=", url.as_str()));
        let attempts: Vec<String> = Vec::new();
        assert(texts(attempts@) =~= Seq::<Seq<char>>::empty());
        let r = UploadSession {
            ip: ip.to_string(),
            endpoint: endpoint.to_string(),
            filename: filename.to_string(),
            payload_text,
            ago_filename,
            stage: UploadStage::Primary,
            attempts,
            trace,
        };
        assert(r@.trace =~= initial_session(
            ip@,
            endpoint@,
            field_name@,
            filename@,
            payload_text@,
            nanos as nat,
        ).trace);
        r
    }

    /// The address that the attempt at hand goes to.
    pub fn url(&self) -> (r: String)
        ensures
            r@ == attempt_url(self@),
    {
        match self.stage {
            UploadStage::Legacy => normalize_url(self.ip.as_str(), self.endpoint.as_str()),
            _ => build_program_url(self.ip.as_str(), self.ago_filename.as_str()),
        }
    }

    fn label(&self) -> (r: String)
        ensures
            r@ == attempt_label(self@),
    {
        let url = self.url();
        match self.stage {
            UploadStage::Primary => concat2("POST ", url.as_str()),
            UploadStage::Fallback => concat2("PUT ", url.as_str()),
            UploadStage::Legacy => concat3("POST ", url.as_str(), " raw-json"),
        }
    }

    /// The request to send for the attempt at hand.
    pub fn request(&self) -> (r: HttpRequest)
        ensures
            r@ == request_of(self@),
    {
        let mut headers: Vec<Header> = Vec::new();
        let method = match self.stage {
            UploadStage::Primary => {
                let origin = concat2("http://", self.ip.as_str());
                let referer = concat3("http://", self.ip.as_str(), "/programs");
                headers.push(
                    make_header("Accept", "application/json, text/plain, */*".to_string()),
                );
                headers.push(make_header("Origin", origin));
                headers.push(make_header("Referer", referer));
                HttpMethod::Post
            },
            UploadStage::Fallback => HttpMethod::Put,
            UploadStage::Legacy => HttpMethod::Post,
        };
        headers.push(make_header("Content-Type", "application/json".to_string()));
        let r = HttpRequest {
            method,
            url: self.url(),
            headers,
            body: Some(self.payload_text.clone()),
            timeout_secs: UPLOAD_TIMEOUT_SECS,
        };
        assert(r@.headers =~= request_of(self@).headers);
        r
    }

    fn success_text(&self) -> (r: String)
        ensures
            r@ == success_message(self@),
    {
        match self.stage {
            UploadStage::Primary => {
                let head = concat3("Uploaded ", self.filename.as_str(), " to AGO as ");
                concat3(head.as_str(), self.ago_filename.as_str(), " via API")
            },
            UploadStage::Fallback => {
                let head = concat3("Uploaded ", self.filename.as_str(), " to AGO as ");
                concat3(head.as_str(), self.ago_filename.as_str(), " via API (PUT)")
            },
            UploadStage::Legacy => {
                let url = self.url();
                let head = concat3(
                    "Uploaded ",
                    self.filename.as_str(),
                    " via compatibility endpoint ",
                );
                concat2(head.as_str(), url.as_str())
            },
        }
    }

    fn describe(&self, outcome: &HttpOutcome) -> (r: String)
        ensures
            r@ == attempt_entry(self@, outcome@),
    {
        let label = self.label();
        match outcome {
            HttpOutcome::Response { status, body } => {
                let shown = describe_status(*status);
                let snippet = take_text(body.as_str(), BODY_SNIPPET_CHARS);
                let head = concat3(label.as_str(), " -> HTTP ", shown.as_str());
                let lead = concat3(head.as_str(), " (", snippet.as_str());
                concat2(lead.as_str(), ")")
            },
            HttpOutcome::TransportError { detail } => concat3(
                label.as_str(),
                " -> ",
                detail.as_str(),
            ),
        }
    }

    fn succeed(self, status: u16, body: &str) -> (r: UploadProgress)
        ensures
            r@ == success_step(self@, status, body@),
    {
        let message = self.success_text();
        let UploadSession { ago_filename, stage, attempts, trace, .. } = self;
        let mut trace = trace;
        let ghost lines = attempt_lines(texts(attempts@));
        let mut i: usize = 0;
        assert(texts(trace@) + lines.subrange(0, 0) =~= texts(trace@));
        while i < attempts.len()
            invariant
                i <= attempts.len(),
                lines == attempt_lines(texts(attempts@)),
                texts(trace@) == self@.trace + lines.subrange(0, i as int),
            decreases attempts.len() - i,
        {
            push_text(&mut trace, concat2("attempt=", attempts[i].as_str()));
            assert(lines.subrange(0, i + 1) =~= lines.subrange(0, i as int).push(lines[i as int]));
            assert(texts(trace@) =~= self@.trace + lines.subrange(0, i + 1));
            i += 1;
        }
        assert(lines.subrange(0, attempts.len() as int) =~= lines);
        push_text(&mut trace, concat2("success=", message.as_str()));
        let shown = describe_status(status);
        let snippet = take_text(body, BODY_SNIPPET_CHARS);
        match stage {
            UploadStage::Primary => {
                push_text(&mut trace, concat2("primary_status=", shown.as_str()));
                push_text(&mut trace, concat2("primary_body=", snippet.as_str()));
            },
            UploadStage::Fallback => {
                push_text(&mut trace, concat2("put_status=", shown.as_str()));
                push_text(&mut trace, concat2("put_body=", snippet.as_str()));
            },
            UploadStage::Legacy => {
                push_text(&mut trace, concat2("legacy_status=", shown.as_str()));
                push_text(&mut trace, concat2("legacy_body=", snippet.as_str()));
            },
        }
        UploadProgress::Finished(
            UploadReport { result: Ok(UploadResult { message, ago_filename }), trace },
        )
    }

    fn fail(self, entry: String) -> (r: UploadProgress)
        ensures
            r@ == failure_step(self@, entry@),
    {
        let UploadSession {
            ip,
            endpoint,
            filename,
            payload_text,
            ago_filename,
            stage,
            attempts,
            trace,
        } = self;
        let mut attempts = attempts;
        push_text(&mut attempts, entry);
        let next = match stage {
            UploadStage::Primary => Some(UploadStage::Fallback),
            UploadStage::Fallback => if endpoint_needs_attempt(endpoint.as_str()) {
                Some(UploadStage::Legacy)
            } else {
                None
            },
            UploadStage::Legacy => None,
        };
        match next {
            Some(stage) => UploadProgress::Continue(
                UploadSession {
                    ip,
                    endpoint,
                    filename,
                    payload_text,
                    ago_filename,
                    stage,
                    attempts,
                    trace,
                },
            ),
            None => {
                let joined = join_texts(&attempts, "; ");
                let message = concat2("Upload failed. Tried: ", joined.as_str());
                let mut trace = trace;
                push_text(&mut trace, concat2("error=", message.as_str()));
                UploadProgress::Finished(
                    UploadReport { result: Err(UploadError::Failed(message)), trace },
                )
            },
        }
    }

    /// Takes the outcome of the attempt at hand and says what follows: the
    /// end, with a result, on a success or after the last attempt; another
    /// attempt otherwise.
    pub fn advance(self, outcome: HttpOutcome) -> (r: UploadProgress)
        ensures
            r@ == step_spec(self@, outcome@),
    {
        let won = match &outcome {
            HttpOutcome::Response { status, body } => status_is_success(*status)
                && !looks_like_html(body.as_str()),
            HttpOutcome::TransportError { .. } => false,
        };
        if won {
            match outcome {
                HttpOutcome::Response { status, body } => self.succeed(status, body.as_str()),
                HttpOutcome::TransportError { .. } => UploadProgress::Continue(self),
            }
        } else {
            let entry = self.describe(&outcome);
            self.fail(entry)
        }
    }
}

/// Builds the payload from the recipe text, renders it, and opens the
/// session for an upload that starts at the time `nanos`, in nanoseconds.
/// It fails where no payload can be built or the payload cannot be rendered,
/// and nowhere else.
pub fn begin_upload(
    ip: &str,
    endpoint: &str,
    field_name: &str,
    filename: &str,
    json_content: &str,
    film_stock: &str,
    developer: &str,
    dilution: &str,
    nanos: u128,
) -> (r: Result<UploadSession, UploadError>)
    ensures
        match build_result(json_content@, filename@, film_stock@, developer@, dilution@) {
            Err(e) => r matches Err(UploadError::InvalidRecipe(x)) && x@ == e,
            Ok(p) => match json_render(payload_json(p)) {
                Ok(text) => r matches Ok(s) && s@ == initial_session(
                    ip@,
                    endpoint@,
                    field_name@,
                    filename@,
                    text,
                    nanos as nat,
                ),
                Err(detail) => r matches Err(UploadError::Serialize(x)) && x@ == detail,
            },
        },
{
    let payload = match build_custom_program_payload(
        json_content,
        filename,
        film_stock,
        developer,
        dilution,
    ) {
        Ok(p) => p,
        Err(e) => {
            return Err(UploadError::InvalidRecipe(e));
        },
    };
    let value = payload.into_json();
    match render_json(&value) {
        Ok(text) => Ok(UploadSession::open(ip, endpoint, field_name, filename, text, nanos)),
        Err(e) => Err(UploadError::Serialize(error_detail(&e))),
    }
}

/// The request that deletes the program `filename` from the device at `ip`.
pub open spec fn delete_request_of(ip: Seq<char>, filename: Seq<char>) -> RequestModel {
    RequestModel {
        method: HttpMethod::Delete,
        url: program_url(ip, filename),
        headers: seq![header("Accept"@, "application/json"@), header("Origin"@, "http://"@ + ip)],
        body: None,
        timeout_secs: DELETE_TIMEOUT_SECS,
    }
}

/// How a delete ended: by the status alone, whatever the body holds.
pub open spec fn delete_verdict(filename: Seq<char>, o: OutcomeModel) -> Result<
    Seq<char>,
    Seq<char>,
> {
    match o {
        OutcomeModel::Response { status, body } => if is_success(status) {
            Ok("Deleted "@ + filename)
        } else {
            Err("AGO returned HTTP "@ + status_text(status) + " when deleting "@ + filename)
        },
        OutcomeModel::TransportError { detail } => Err("Failed to reach AGO: "@ + detail),
    }
}

/// A text result over the views.
pub open spec fn verdict_text(r: Result<String, String>) -> Result<Seq<char>, Seq<char>> {
    match r {
        Ok(s) => Ok(s@),
        Err(s) => Err(s@),
    }
}

/// The request that deletes the program `filename` from the device at `ip`.
pub fn delete_request(ip: &str, filename: &str) -> (r: HttpRequest)
    ensures
        r@ == delete_request_of(ip@, filename@),
{
    let mut headers: Vec<Header> = Vec::new();
    headers.push(make_header("Accept", "application/json".to_string()));
    headers.push(make_header("Origin", concat2("http://", ip)));
    let r = HttpRequest {
        method: HttpMethod::Delete,
        url: build_program_url(ip, filename),
        headers,
        body: None,
        timeout_secs: DELETE_TIMEOUT_SECS,
    };
    assert(r@.headers =~= delete_request_of(ip@, filename@).headers);
    r
}

/// Judges the outcome of a delete of the program `filename`.
pub fn delete_result(filename: &str, outcome: &HttpOutcome) -> (r: Result<String, String>)
    ensures
        verdict_text(r) == delete_verdict(filename@, outcome@),
{
    match outcome {
        HttpOutcome::Response { status, body } => {
            if status_is_success(*status) {
                Ok(concat2("Deleted ", filename))
            } else {
                let shown = describe_status(*status);
                let head = concat3("AGO returned HTTP ", shown.as_str(), " when deleting ");
                Err(concat2(head.as_str(), filename))
            }
        },
        HttpOutcome::TransportError { detail } => Err(
            concat2("Failed to reach AGO: ", detail.as_str()),
        ),
    }
}

/// A response whose body looks like HTML never ends an upload with a
/// success, whatever its status. After the first attempt, the PUT of the
/// same payload to the same address follows.
pub proof fn lemma_html_reply_is_no_success(s: SessionModel, status: u16, body: Seq<char>)
    requires
        html_like(body),
    ensures
        !(step_spec(s, OutcomeModel::Response { status, body }) matches ProgressModel::Finished(
            report,
        ) && report.result is Ok),
        s.stage == UploadStage::Primary ==> (step_spec(
            s,
            OutcomeModel::Response { status, body },
        ) matches ProgressModel::Continue(next) && next.stage == UploadStage::Fallback
            && request_of(next).method == HttpMethod::Put && request_of(next).url == request_of(
            s,
        ).url && request_of(next).body == request_of(s).body),
{
}

/// An upload ends with a success exactly on an outcome that succeeds: a
/// response of the success class whose body does not look like HTML.
pub proof fn lemma_success_is_classified(s: SessionModel, o: OutcomeModel)
    ensures
        (step_spec(s, o) matches ProgressModel::Finished(report) && report.result is Ok)
            == succeeds(o),
{
}

/// Where the first attempt meets a transport error and the PUT then
/// succeeds, the upload ends there, with a message that names the PUT: no
/// third attempt is made.
pub proof fn lemma_fallback_success(
    s: SessionModel,
    detail: Seq<char>,
    status: u16,
    body: Seq<char>,
)
    requires
        s.stage == UploadStage::Primary,
        is_success(status),
        !html_like(body),
    ensures
        ({
            let next = with_stage(
                s,
                UploadStage::Fallback,
                s.attempts.push(attempt_entry(s, OutcomeModel::TransportError { detail })),
            );
            &&& step_spec(s, OutcomeModel::TransportError { detail }) == ProgressModel::Continue(
                next,
            )
            &&& request_of(next).method == HttpMethod::Put
            &&& step_spec(next, OutcomeModel::Response { status, body }) is Finished
            &&& step_spec(next, OutcomeModel::Response { status, body })->Finished_0.result == Ok::<
                UploadResultModel,
                UploadErrorModel,
            >(
                UploadResultModel {
                    message: "Uploaded "@ + s.filename + " to AGO as "@ + s.ago_filename
                        + " via API (PUT)"@,
                    ago_filename: s.ago_filename,
                },
            )
        }),
{
}

/// The attempts that lie behind a stage.
pub open spec fn attempts_before(stage: UploadStage) -> nat {
    match stage {
        UploadStage::Primary => 0,
        UploadStage::Fallback => 1,
        UploadStage::Legacy => 2,
    }
}

/// What holds of a session from its opening to its end: it has described as
/// many attempts as lie behind its stage, and it is at the last stage only
/// where the endpoint setting asks for that attempt.
pub open spec fn session_well_formed(s: SessionModel) -> bool {
    &&& s.attempts.len() == attempts_before(s.stage)
    &&& s.stage == UploadStage::Legacy ==> legacy_applies(s.endpoint)
}

/// A session is well formed when it is opened.
pub proof fn lemma_initial_session_is_well_formed(
    ip: Seq<char>,
    endpoint: Seq<char>,
    field_name: Seq<char>,
    filename: Seq<char>,
    payload_text: Seq<char>,
    nanos: nat,
)
    ensures
        session_well_formed(
            initial_session(ip, endpoint, field_name, filename, payload_text, nanos),
        ),
{
}

/// A well-formed session stays well formed from attempt to attempt, keeps
/// its payload, its addresses and its trace, and moves on by one stage. The
/// last stage is always the end, so an upload makes three attempts at most.
/// At the end, the trace has grown and holds what it held.
pub proof fn lemma_session_stays_well_formed(s: SessionModel, o: OutcomeModel)
    requires
        session_well_formed(s),
    ensures
        step_spec(s, o) matches ProgressModel::Continue(next) ==> {
            &&& session_well_formed(next)
            &&& attempts_before(next.stage) == attempts_before(s.stage) + 1
            &&& next.payload_text == s.payload_text
            &&& next.ago_filename == s.ago_filename
            &&& next.ip == s.ip
            &&& next.endpoint == s.endpoint
            &&& next.filename == s.filename
            &&& next.trace == s.trace
            &&& next.attempts.subrange(0, s.attempts.len() as int) == s.attempts
            &&& !succeeds(o)
        },
        s.stage == UploadStage::Legacy ==> step_spec(s, o) is Finished,
        step_spec(s, o) matches ProgressModel::Finished(report) ==> {
            &&& report.trace.len() > s.trace.len()
            &&& report.trace.subrange(0, s.trace.len() as int) == s.trace
            &&& report.result matches Ok(done) ==> done.ago_filename == s.ago_filename
        },
{
    if let ProgressModel::Continue(next) = step_spec(s, o) {
        assert(next.attempts.subrange(0, s.attempts.len() as int) =~= s.attempts);
    }
    if let ProgressModel::Finished(report) = step_spec(s, o) {
        assert(report.trace.subrange(0, s.trace.len() as int) =~= s.trace);
    }
}

/// The trace of an upload that ended holds a record of every attempt. After
/// a success it holds, behind what the session had traced, one line for each
/// attempt that failed before, in their order, and then the line of the
/// success. After the last failure its last line holds the descriptions of
/// all attempts.
pub proof fn lemma_every_attempt_is_traced(s: SessionModel, o: OutcomeModel)
    ensures
        succeeds(o) ==> (step_spec(s, o) matches ProgressModel::Finished(report) && {
            &&& report.trace.len() > s.trace.len() + s.attempts.len()
            &&& report.trace.subrange(0, s.trace.len() as int) == s.trace
            &&& forall|i: int|
                0 <= i < s.attempts.len() ==> report.trace[s.trace.len() + i] == "attempt="@
                    + s.attempts[i]
            &&& report.trace[(s.trace.len() + s.attempts.len()) as int] == "success="@
                + success_message(s)
        }),
        !succeeds(o) ==> (step_spec(s, o) matches ProgressModel::Finished(report) ==> {
            &&& report.trace.last() == "error="@ + failure_message(
                s.attempts.push(attempt_entry(s, o)),
            )
            &&& report.result == Err::<UploadResultModel, UploadErrorModel>(
                UploadErrorModel::Failed(failure_message(s.attempts.push(attempt_entry(s, o)))),
            )
        }),
{
    if succeeds(o) {
        let report = step_spec(s, o)->Finished_0;
        assert(report.trace.subrange(0, s.trace.len() as int) =~= s.trace);
    }
}

/// The session after the first attempt of `s` failed with `first`.
pub open spec fn after_first(s: SessionModel, first: OutcomeModel) -> SessionModel {
    with_stage(s, UploadStage::Fallback, seq![attempt_entry(s, first)])
}

/// The session after the first two attempts of `s` failed.
pub open spec fn after_second(
    s: SessionModel,
    first: OutcomeModel,
    second: OutcomeModel,
) -> SessionModel {
    with_stage(
        s,
        UploadStage::Legacy,
        seq![attempt_entry(s, first), attempt_entry(after_first(s, first), second)],
    )
}

/// Where every attempt fails, the error names each attempt in the order in
/// which it was made, with `"; "` between them: three where the endpoint
/// setting asks for an attempt of its own, two where it does not.
pub proof fn lemma_exhausted_attempts(
    s: SessionModel,
    first: OutcomeModel,
    second: OutcomeModel,
    third: OutcomeModel,
)
    requires
        s.stage == UploadStage::Primary,
        s.attempts.len() == 0,
        !succeeds(first),
        !succeeds(second),
        !succeeds(third),
    ensures
        step_spec(s, first) == ProgressModel::Continue(after_first(s, first)),
        legacy_applies(s.endpoint) ==> step_spec(after_first(s, first), second)
            == ProgressModel::Continue(after_second(s, first, second)),
        legacy_applies(s.endpoint) ==> (step_spec(
            after_second(s, first, second),
            third,
        ) matches ProgressModel::Finished(report) && report.result == Err::<
            UploadResultModel,
            UploadErrorModel,
        >(
            UploadErrorModel::Failed(
                "Upload failed. Tried: "@ + (attempt_entry(s, first) + "; "@ + attempt_entry(
                    after_first(s, first),
                    second,
                ) + "; "@ + attempt_entry(after_second(s, first, second), third)),
            ),
        )),
        !legacy_applies(s.endpoint) ==> (step_spec(
            after_first(s, first),
            second,
        ) matches ProgressModel::Finished(report) && report.result == Err::<
            UploadResultModel,
            UploadErrorModel,
        >(
            UploadErrorModel::Failed(
                "Upload failed. Tried: "@ + (attempt_entry(s, first) + "; "@ + attempt_entry(
                    after_first(s, first),
                    second,
                )),
            ),
        )),
{
    let e1 = attempt_entry(s, first);
    let a = after_first(s, first);
    let e2 = attempt_entry(a, second);
    let b = after_second(s, first, second);
    let e3 = attempt_entry(b, third);
    let sep = "; "@;
    assert(s.attempts.push(e1) =~= seq![e1]);
    assert(a.attempts.push(e2) =~= seq![e1, e2]);
    assert(b.attempts.push(e3) =~= seq![e1, e2, e3]);
    assert(seq![e1, e2].drop_last() =~= seq![e1]);
    assert(seq![e1, e2, e3].drop_last() =~= seq![e1, e2]);
    assert(join(seq![e1], sep) == e1);
    assert(join(seq![e1, e2], sep) == e1 + sep + e2);
    assert(join(seq![e1, e2, e3], sep) == e1 + sep + e2 + sep + e3);
}

/// The attempts of an upload go out as POST, PUT, POST, in this order, the
/// first two to the path of the program.
pub proof fn lemma_attempt_order(s: SessionModel, first: OutcomeModel, second: OutcomeModel)
    requires
        s.stage == UploadStage::Primary,
    ensures
        request_of(s).method == HttpMethod::Post,
        request_of(s).url == program_url(s.ip, s.ago_filename),
        request_of(after_first(s, first)).method == HttpMethod::Put,
        request_of(after_first(s, first)).url == program_url(s.ip, s.ago_filename),
        request_of(after_second(s, first, second)).method == HttpMethod::Post,
        request_of(after_second(s, first, second)).url == normalized_url(s.ip, s.endpoint),
{
}

} // verus!
