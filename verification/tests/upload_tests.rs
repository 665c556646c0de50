use ago_recipe_manager::http::{
    describe_status, status_is_success, Header, HttpMethod, HttpOutcome, HttpRequest,
};
use ago_recipe_manager::recipe::RecipeError;
use ago_recipe_manager::upload::{
    begin_upload, build_custom_program_filename, build_program_url, delete_request,
    delete_result, endpoint_needs_attempt, has_html_marker, looks_like_html, normalize_url,
    short_upload_token, AgoProgram, UploadError, UploadProgress, UploadReport, UploadResult,
    UploadSession, UploadStage, BODY_SNIPPET_CHARS, DELETE_TIMEOUT_SECS, PAYLOAD_SNIPPET_CHARS,
    UPLOAD_TIMEOUT_SECS,
};

const NANOS: u128 = 0x0123_4567_89AB_CDEF;
const NAME: &str = "_P_C0_89abcdef.txt";
const URL: &str = "http://10.0.0.1/api/files/programs/custom/_P_C0_89abcdef.txt";

fn session(endpoint: &str) -> UploadSession {
    UploadSession::open("10.0.0.1", endpoint, "file", "recipe.json", "{\"a\":1}".to_string(), NANOS)
}

fn response(status: u16, body: &str) -> HttpOutcome {
    HttpOutcome::Response { status, body: body.to_string() }
}

fn refused(detail: &str) -> HttpOutcome {
    HttpOutcome::TransportError { detail: detail.to_string() }
}

fn next(progress: UploadProgress) -> UploadSession {
    match progress {
        UploadProgress::Continue(s) => s,
        UploadProgress::Finished(r) => panic!("the upload ended early: {:?}", r),
    }
}

fn end(progress: UploadProgress) -> UploadReport {
    match progress {
        UploadProgress::Finished(r) => r,
        UploadProgress::Continue(s) => panic!("the upload goes on: {:?}", s),
    }
}

fn pair(name: &str, value: &str) -> Header {
    Header { name: name.to_string(), value: value.to_string() }
}

#[test]
fn normalize_url_passes_absolute_addresses_through() {
    assert_eq!(normalize_url("10.0.0.1", "http://other/x"), "http://other/x");
    assert_eq!(normalize_url("10.0.0.1", "https://other/x"), "https://other/x");
}

#[test]
fn normalize_url_puts_paths_on_the_device() {
    assert_eq!(normalize_url("10.0.0.1", "/upload"), "http://10.0.0.1/upload");
    assert_eq!(normalize_url("10.0.0.1", "upload"), "http://10.0.0.1/upload");
    assert_eq!(normalize_url("10.0.0.1", ""), "http://10.0.0.1/");
    assert_eq!(normalize_url("10.0.0.1", " /upload"), "http://10.0.0.1/ /upload");
    assert_eq!(normalize_url("10.0.0.1", "HTTP://other"), "http://10.0.0.1/HTTP://other");
}

#[test]
fn token_is_eight_low_hex_digits() {
    assert_eq!(short_upload_token(0), "00000000");
    assert_eq!(short_upload_token(0x1234), "00001234");
    assert_eq!(short_upload_token(NANOS), "89abcdef");
    assert_eq!(short_upload_token(u128::MAX), "ffffffff");
    assert_eq!(short_upload_token(1_700_000_000_123_456_789), format!("{:08x}", 1_700_000_000_123_456_789u128 & 0xFFFF_FFFF));
}

#[test]
fn program_filename_wraps_the_token() {
    assert_eq!(build_custom_program_filename(255), "_P_C0_000000ff.txt");
    assert_eq!(build_custom_program_filename(NANOS), NAME);
}

#[test]
fn program_url_is_the_programs_path() {
    assert_eq!(build_program_url("10.0.0.1", NAME), URL);
}

#[test]
fn html_is_recognised_in_any_case() {
    assert!(looks_like_html("<!DOCTYPE html><html></html>"));
    assert!(looks_like_html("  \n<HTML lang=\"en\">"));
    assert!(looks_like_html("<!doctype HTML>"));
    assert!(looks_like_html("{\"note\":\"<html\"}"));
    assert!(!looks_like_html(""));
    assert!(!looks_like_html("{\"ok\":true}"));
    assert!(!looks_like_html("< html>"));
}

#[test]
fn html_marker_is_searched_as_given() {
    assert!(has_html_marker("<html>"));
    assert!(has_html_marker("x<!doctype html>"));
    assert!(!has_html_marker("<HTML>"));
    assert!(!has_html_marker("<!doctype"));
}

#[test]
fn endpoint_setting_asks_for_its_own_attempt() {
    assert!(endpoint_needs_attempt("/upload"));
    assert!(endpoint_needs_attempt("/api/files/programs/custom/"));
    assert!(!endpoint_needs_attempt(""));
    assert!(!endpoint_needs_attempt("   "));
    assert!(!endpoint_needs_attempt("/api/files/programs/custom"));
    assert!(!endpoint_needs_attempt("  /api/files/programs/custom\n"));
}

#[test]
fn status_is_shown_with_its_reason() {
    assert_eq!(describe_status(200), "200 OK");
    assert_eq!(describe_status(201), "201 Created");
    assert_eq!(describe_status(404), "404 Not Found");
    assert_eq!(describe_status(500), "500 Internal Server Error");
    assert_eq!(describe_status(999), "999 <unknown status code>");
    assert_eq!(describe_status(99), "99");
    assert_eq!(describe_status(0), "0");
    assert_eq!(describe_status(1000), "1000");
    assert_eq!(describe_status(u16::MAX), "65535");
}

#[test]
fn success_class_is_two_hundred_to_two_ninety_nine() {
    assert!(!status_is_success(199));
    assert!(status_is_success(200));
    assert!(status_is_success(299));
    assert!(!status_is_success(300));
}

#[test]
fn open_session_starts_with_the_primary_attempt() {
    let s = session("/legacy");
    assert_eq!(s.ip, "10.0.0.1");
    assert_eq!(s.endpoint, "/legacy");
    assert_eq!(s.filename, "recipe.json");
    assert_eq!(s.payload_text, "{\"a\":1}");
    assert_eq!(s.ago_filename, NAME);
    assert_eq!(s.stage, UploadStage::Primary);
    assert!(s.attempts.is_empty());
    assert_eq!(
        s.trace,
        vec![
            "ip=10.0.0.1".to_string(),
            "endpoint_setting=/legacy".to_string(),
            "field_setting=file".to_string(),
            "filename=recipe.json".to_string(),
            "custom_payload={\"a\":1}".to_string(),
            format!("primary_url={}", URL),
        ]
    );
}

#[test]
fn payload_snippet_in_the_trace_is_capped() {
    let long = "x".repeat(PAYLOAD_SNIPPET_CHARS + 40);
    let s = UploadSession::open("ip", "", "", "f", long.clone(), 0);
    assert_eq!(s.trace[4], format!("custom_payload={}", "x".repeat(360)));
    assert_eq!(s.payload_text, long);
}

#[test]
fn primary_request_carries_the_browser_headers() {
    let request = session("").request();
    assert_eq!(
        request,
        HttpRequest {
            method: HttpMethod::Post,
            url: URL.to_string(),
            headers: vec![
                pair("Accept", "application/json, text/plain, */*"),
                pair("Origin", "http://10.0.0.1"),
                pair("Referer", "http://10.0.0.1/programs"),
                pair("Content-Type", "application/json"),
            ],
            body: Some("{\"a\":1}".to_string()),
            timeout_secs: 12,
        }
    );
    assert_eq!(UPLOAD_TIMEOUT_SECS, 12);
}

#[test]
fn primary_success_ends_the_upload() {
    let report = end(session("/legacy").advance(response(200, "{\"ok\":true}")));
    assert_eq!(
        report.result,
        Ok(UploadResult {
            message: format!("Uploaded recipe.json to AGO as {} via API", NAME),
            ago_filename: NAME.to_string(),
        })
    );
    assert_eq!(report.trace.len(), 9);
    assert_eq!(report.trace[6], format!("success=Uploaded recipe.json to AGO as {} via API", NAME));
    assert_eq!(report.trace[7], "primary_status=200 OK");
    assert_eq!(report.trace[8], "primary_body={\"ok\":true}");
}

#[test]
fn html_body_with_status_200_falls_back_to_put() {
    let after = next(session("").advance(response(200, "<!DOCTYPE html><html>error</html>")));
    assert_eq!(after.stage, UploadStage::Fallback);
    assert_eq!(
        after.attempts,
        vec![format!("POST {} -> HTTP 200 OK (<!DOCTYPE html><html>error</html>)", URL)]
    );
    let request = after.request();
    assert_eq!(request.method, HttpMethod::Put);
    assert_eq!(request.url, URL);
    assert_eq!(request.headers, vec![pair("Content-Type", "application/json")]);
    assert_eq!(request.body, Some("{\"a\":1}".to_string()));
}

#[test]
fn put_success_after_a_connection_error_ends_the_upload() {
    let after = next(session("/legacy").advance(refused("connection refused")));
    assert_eq!(after.attempts, vec![format!("POST {} -> connection refused", URL)]);
    let report = end(after.advance(response(201, "{\"saved\":true}")));
    assert_eq!(
        report.result,
        Ok(UploadResult {
            message: format!("Uploaded recipe.json to AGO as {} via API (PUT)", NAME),
            ago_filename: NAME.to_string(),
        })
    );
    assert_eq!(report.trace.len(), 10);
    assert_eq!(report.trace[5], format!("primary_url={}", URL));
    assert_eq!(report.trace[6], format!("attempt=POST {} -> connection refused", URL));
    assert_eq!(
        report.trace[7],
        format!("success=Uploaded recipe.json to AGO as {} via API (PUT)", NAME)
    );
    assert_eq!(report.trace[8], "put_status=201 Created");
    assert_eq!(report.trace[9], "put_body={\"saved\":true}");
}

#[test]
fn three_failures_are_listed_in_order() {
    let a = next(session("/legacy").advance(response(500, "oops")));
    let b = next(a.advance(refused("timed out")));
    assert_eq!(b.stage, UploadStage::Legacy);
    let request = b.request();
    assert_eq!(request.method, HttpMethod::Post);
    assert_eq!(request.url, "http://10.0.0.1/legacy");
    assert_eq!(request.headers, vec![pair("Content-Type", "application/json")]);
    let report = end(b.advance(response(404, "")));
    let expected = format!(
        "Upload failed. Tried: POST {} -> HTTP 500 Internal Server Error (oops); PUT {} -> timed out; POST http://10.0.0.1/legacy raw-json -> HTTP 404 Not Found ()",
        URL, URL
    );
    assert_eq!(report.result, Err(UploadError::Failed(expected.clone())));
    assert_eq!(report.result.as_ref().unwrap_err().message(), expected);
    assert_eq!(expected.matches("; ").count(), 2);
    assert_eq!(report.trace.last().unwrap(), &format!("error={}", expected));
    assert_eq!(report.trace.len(), 7);
}

#[test]
fn without_endpoint_setting_two_failures_end_the_upload() {
    for endpoint in ["", "  ", "/api/files/programs/custom", " /api/files/programs/custom "] {
        let a = next(session(endpoint).advance(refused("a")));
        let report = end(a.advance(refused("b")));
        assert_eq!(
            report.result,
            Err(UploadError::Failed(format!(
                "Upload failed. Tried: POST {} -> a; PUT {} -> b",
                URL, URL
            )))
        );
    }
}

#[test]
fn legacy_success_names_the_endpoint() {
    let a = next(session("upload.cgi").advance(refused("a")));
    let b = next(a.advance(response(405, "no")));
    let report = end(b.advance(response(204, "")));
    assert_eq!(
        report.result,
        Ok(UploadResult {
            message: "Uploaded recipe.json via compatibility endpoint http://10.0.0.1/upload.cgi"
                .to_string(),
            ago_filename: NAME.to_string(),
        })
    );
    assert_eq!(report.trace.len(), 11);
    assert_eq!(report.trace[6], format!("attempt=POST {} -> a", URL));
    assert_eq!(
        report.trace[7],
        format!("attempt=PUT {} -> HTTP 405 Method Not Allowed (no)", URL)
    );
    assert_eq!(
        report.trace[8],
        "success=Uploaded recipe.json via compatibility endpoint http://10.0.0.1/upload.cgi"
    );
    assert_eq!(report.trace[9], "legacy_status=204 No Content");
    assert_eq!(report.trace[10], "legacy_body=");
}

#[test]
fn legacy_html_reply_is_a_failure() {
    let a = next(session("/x").advance(refused("a")));
    let b = next(a.advance(refused("b")));
    let report = end(b.advance(response(200, "<html>")));
    assert!(matches!(report.result, Err(UploadError::Failed(_))));
}

#[test]
fn body_snippet_is_capped() {
    let body = "y".repeat(BODY_SNIPPET_CHARS + 20);
    let after = next(session("").advance(response(503, &body)));
    assert_eq!(
        after.attempts[0],
        format!("POST {} -> HTTP 503 Service Unavailable ({})", URL, "y".repeat(180))
    );
    let report = end(session("").advance(response(200, &body)));
    assert_eq!(report.trace[8], format!("primary_body={}", "y".repeat(180)));
}

#[test]
fn begin_upload_renders_the_payload() {
    let s = begin_upload(
        "10.0.0.1",
        "",
        "file",
        "My Recipe!!.json",
        r#"{"steps":[{"name":"DEV","time_min":2,"time_sec":30}]}"#,
        "",
        "",
        "",
        NANOS,
    )
    .unwrap();
    assert_eq!(
        s.payload_text,
        r#"{"category":"BW","designator":"C2","expanded_title":"","name":"My Recipe","steps":[{"agitation":"Roll","compensation":"Off","name":"DEV","time":150}]}"#
    );
    assert_eq!(s.filename, "My Recipe!!.json");
    assert_eq!(s.ago_filename, NAME);
    assert_eq!(s.stage, UploadStage::Primary);
}

#[test]
fn begin_upload_refuses_a_bad_recipe() {
    let err = begin_upload("ip", "", "", "f", "{}", "", "", "", 0).unwrap_err();
    assert_eq!(err, UploadError::InvalidRecipe(RecipeError::MissingSteps));
    assert_eq!(err.message(), "Recipe JSON missing steps array");
    let err = begin_upload("ip", "", "", "f", "nope", "", "", "", 0).unwrap_err();
    assert!(matches!(err, UploadError::InvalidRecipe(RecipeError::InvalidJson(_))));
    assert!(err.message().starts_with("Invalid recipe JSON: "));
}

#[test]
fn serialize_error_message() {
    assert_eq!(
        UploadError::Serialize("bad".to_string()).message(),
        "Failed to serialize upload payload: bad"
    );
}

#[test]
fn delete_request_goes_to_the_programs_path() {
    assert_eq!(
        delete_request("10.0.0.1", NAME),
        HttpRequest {
            method: HttpMethod::Delete,
            url: URL.to_string(),
            headers: vec![pair("Accept", "application/json"), pair("Origin", "http://10.0.0.1")],
            body: None,
            timeout_secs: 8,
        }
    );
    assert_eq!(DELETE_TIMEOUT_SECS, 8);
}

#[test]
fn delete_is_judged_by_the_status_alone() {
    assert_eq!(delete_result("p.txt", &response(200, "<html>")), Ok("Deleted p.txt".to_string()));
    assert_eq!(delete_result("p.txt", &response(204, "")), Ok("Deleted p.txt".to_string()));
    assert_eq!(
        delete_result("p.txt", &response(404, "gone")),
        Err("AGO returned HTTP 404 Not Found when deleting p.txt".to_string())
    );
    assert_eq!(
        delete_result("p.txt", &refused("no route")),
        Err("Failed to reach AGO: no route".to_string())
    );
}

#[test]
fn program_record_holds_its_names() {
    let program =
        AgoProgram { filename: "_P_C0_1.txt".to_string(), display_name: "Tri-X".to_string() };
    assert_eq!(program.clone(), program);
    assert_eq!(program.display_name, "Tri-X");
}

#[test]
fn failed_attempt_before_a_success_keeps_its_snippet_capped() {
    let body = "z".repeat(BODY_SNIPPET_CHARS + 5);
    let after = next(session("").advance(response(500, &body)));
    let report = end(after.advance(response(200, "ok")));
    assert_eq!(report.trace.len(), 10);
    assert_eq!(
        report.trace[6],
        format!("attempt=POST {} -> HTTP 500 Internal Server Error ({})", URL, "z".repeat(180))
    );
    assert_eq!(report.trace[8], "put_status=200 OK");
    assert_eq!(report.trace[9], "put_body=ok");
}
