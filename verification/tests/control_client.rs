use sidecar::SidecarManager;
use sidecar::digits::dec_string;
use sidecar::digits::int_string;
use sidecar::http::HttpReply;
use sidecar::http::health_message;
use sidecar::http::health_url;
use sidecar::http::prompt_url;
use sidecar::http::prompt_payload;
use sidecar::http::status_is_success;
use sidecar::manager::SpawnOutcome;
use sidecar::manager::exit_code_string;

fn started(pid: u32) -> SidecarManager {
    let mut m = SidecarManager::new();
    m.prepare_start();
    m.start_sidecar(SpawnOutcome::Spawned(pid)).unwrap();
    m
}

fn ok_body(status: u16, body: &str) -> HttpReply {
    HttpReply::Response {
        status,
        body: Ok(body.to_string()),
    }
}

#[test]
fn guard_fails_without_a_running_child() {
    let m = SidecarManager::new();
    assert_eq!(m.guard_running(), Err("Sidecar is not running".to_string()));
}

#[test]
fn guard_passes_with_a_running_child() {
    let m = started(7);
    assert_eq!(m.guard_running(), Ok(()));
}

#[test]
fn health_check_echoes_the_status_field() {
    let m = started(7);
    let r = m.health_check(ok_body(200, "{\"status\":\"ok\"}"));
    let msg = r.unwrap();
    assert_eq!(msg, "OpenCode health check: ok");
    assert!(msg.contains("ok"));
}

#[test]
fn health_check_without_status_field_is_generic() {
    let m = started(7);
    let r = m.health_check(ok_body(200, "{}"));
    assert_eq!(r, Ok("OpenCode health check successful".to_string()));
}

#[test]
fn health_check_with_non_string_status_is_generic() {
    let m = started(7);
    let r = m.health_check(ok_body(204, "{\"status\":5}"));
    assert_eq!(r, Ok("OpenCode health check successful".to_string()));
}

#[test]
fn health_check_reports_a_bad_status() {
    let m = started(7);
    let r = m.health_check(ok_body(500, "{\"status\":\"ok\"}"));
    assert_eq!(r, Err("Health check failed with status: 500".to_string()));
}

#[test]
fn health_check_reports_a_transport_failure() {
    let m = started(7);
    let r = m.health_check(HttpReply::Failed("connection refused".to_string()));
    assert_eq!(
        r,
        Err("Health check request failed: connection refused".to_string())
    );
}

#[test]
fn health_check_reports_a_malformed_body() {
    let m = started(7);
    let r = m.health_check(ok_body(200, "not json"));
    let err = r.unwrap_err();
    assert!(err.starts_with("Failed to parse response: "));
    assert!(err.len() > "Failed to parse response: ".len());
}

#[test]
fn health_check_reports_a_body_read_failure() {
    let m = started(7);
    let r = m.health_check(HttpReply::Response {
        status: 200,
        body: Err("decode error".to_string()),
    });
    assert_eq!(r, Err("Failed to parse response: decode error".to_string()));
}

#[test]
fn health_check_does_not_change_state() {
    let m = started(7);
    m.health_check(ok_body(500, "")).unwrap_err();
    assert!(m.is_running());
    assert_eq!(m.get_error(), None);
}

#[test]
fn send_prompt_returns_the_body_text() {
    let m = started(7);
    let r = m.send_prompt(ok_body(200, "echo: hello"));
    let msg = r.unwrap();
    assert_eq!(msg, "echo: hello");
    assert!(msg.contains("hello"));
}

#[test]
fn send_prompt_reports_a_bad_status() {
    let m = started(7);
    let r = m.send_prompt(ok_body(404, "missing"));
    assert_eq!(r, Err("Request failed with status: 404".to_string()));
}

#[test]
fn send_prompt_reports_a_transport_failure() {
    let m = started(7);
    let r = m.send_prompt(HttpReply::Failed("timed out".to_string()));
    assert_eq!(r, Err("Request failed: timed out".to_string()));
}

#[test]
fn send_prompt_reports_a_body_read_failure() {
    let m = started(7);
    let r = m.send_prompt(HttpReply::Response {
        status: 201,
        body: Err("truncated".to_string()),
    });
    assert_eq!(r, Err("Failed to read response: truncated".to_string()));
}

#[test]
fn prompt_payload_wraps_the_text() {
    assert_eq!(prompt_payload("hello"), "{\"prompt\":\"hello\"}");
    assert_eq!(prompt_payload(""), "{\"prompt\":\"\"}");
}

#[test]
fn prompt_payload_escapes_special_characters() {
    assert_eq!(
        prompt_payload("a\"b\\c\nd"),
        "{\"prompt\":\"a\\\"b\\\\c\\nd\"}"
    );
    assert_eq!(
        prompt_payload("tab\there\r\u{8}\u{c}"),
        "{\"prompt\":\"tab\\there\\r\\b\\f\"}"
    );
    assert_eq!(prompt_payload("\u{1}"), "{\"prompt\":\"\\u0001\"}");
    assert_eq!(prompt_payload("\u{1f}"), "{\"prompt\":\"\\u001f\"}");
}

#[test]
fn prompt_payload_is_valid_json_that_parses_back() {
    let text = "line one\nline \"two\" \\ end\u{1}";
    let payload = prompt_payload(text);
    let value: serde_json::Value = serde_json::from_str(&payload).unwrap();
    let roundtrip = value.get("prompt").and_then(|v| v.as_str()).unwrap();
    assert_eq!(roundtrip, text);
}

#[test]
fn health_message_matches_both_forms() {
    assert_eq!(
        health_message(Some("ready".to_string())),
        "OpenCode health check: ready"
    );
    assert_eq!(health_message(None), "OpenCode health check successful");
}

#[test]
fn endpoints_are_the_fixed_local_ones() {
    assert_eq!(health_url(), "http://localhost:8080/api/health");
    assert_eq!(prompt_url(), "http://localhost:8080/api/prompt");
}

#[test]
fn status_success_covers_exactly_the_two_hundreds() {
    assert!(!status_is_success(199));
    assert!(status_is_success(200));
    assert!(status_is_success(299));
    assert!(!status_is_success(300));
    assert!(!status_is_success(404));
}

#[test]
fn decimal_rendering_is_exact() {
    assert_eq!(dec_string(0), "0");
    assert_eq!(dec_string(10), "10");
    assert_eq!(dec_string(8080), "8080");
    assert_eq!(dec_string(65535), "65535");
    assert_eq!(int_string(0), "0");
    assert_eq!(int_string(-1), "-1");
    assert_eq!(int_string(i32::MIN), "-2147483648");
    assert_eq!(int_string(i32::MAX), "2147483647");
}

#[test]
fn exit_codes_render_like_the_monitor_reports_them() {
    assert_eq!(exit_code_string(Some(0)), "Some(0)");
    assert_eq!(exit_code_string(Some(137)), "Some(137)");
    assert_eq!(exit_code_string(Some(-9)), "Some(-9)");
    assert_eq!(exit_code_string(None), "None");
}
