use nexo_plugin_telegram::auto_discovery::{
    admin_handle, http_request, metrics_scrape, normalized_handle, pairing_normalize_sender,
    pairing_send_qr_image, pairing_send_reply, qr_image_reply,
};
use nexo_plugin_telegram::JsonValue;

fn s(x: &str) -> JsonValue {
    JsonValue::String(x.to_string())
}

fn obj(pairs: Vec<(&str, JsonValue)>) -> JsonValue {
    JsonValue::Object(pairs.into_iter().map(|(k, v)| (k.to_string(), v)).collect())
}

fn str_field<'a>(v: &'a JsonValue, key: &str) -> Option<&'a str> {
    v.get(key).and_then(|x| x.as_str())
}

#[test]
fn pairing_normalize_lowercases_handle() {
    let r = pairing_normalize_sender(&obj(vec![("raw", s("@User_Name"))]));
    assert_eq!(str_field(&r, "normalized"), Some("@user_name"));
}

#[test]
fn pairing_normalize_passes_numeric_through() {
    let r = pairing_normalize_sender(&obj(vec![("raw", s("123456789"))]));
    assert_eq!(str_field(&r, "normalized"), Some("123456789"));
}

#[test]
fn pairing_normalize_rejects_short_handle() {
    let r = pairing_normalize_sender(&obj(vec![("raw", s("@abcd"))]));
    assert!(r.get("normalized").map(|v| v.is_null()).unwrap_or(true));
}

#[test]
fn pairing_normalize_rejects_non_alphanum() {
    let r = pairing_normalize_sender(&obj(vec![("raw", s("@user-name"))]));
    assert!(r.get("normalized").map(|v| v.is_null()).unwrap_or(true));
}

#[test]
fn pairing_send_reply_acks_valid() {
    let r = pairing_send_reply(&obj(vec![
        ("account", s("default")),
        ("to", s("@user")),
        ("text", s("code: 9999")),
    ]));
    assert_eq!(r.get("ok").and_then(|v| v.as_bool()), Some(true));
}

#[test]
fn pairing_send_reply_rejects_missing_to() {
    let r = pairing_send_reply(&obj(vec![("account", s("default")), ("to", s("")), ("text", s("x"))]));
    assert_eq!(r.get("ok").and_then(|v| v.as_bool()), Some(false));
}

#[test]
fn http_get_health_serves_200() {
    let r = http_request(&obj(vec![("method", s("GET")), ("path", s("/telegram/health"))]));
    assert_eq!(r.get("status").and_then(|v| v.as_u64()), Some(200));
}

#[test]
fn http_unknown_returns_404() {
    let r = http_request(&obj(vec![("method", s("GET")), ("path", s("/telegram/missing"))]));
    assert_eq!(r.get("status").and_then(|v| v.as_u64()), Some(404));
}

#[test]
fn admin_bot_info_returns_plugin_metadata() {
    let r = admin_handle(&obj(vec![
        ("method", s("nexo/admin/telegram/bot_info")),
        ("params", obj(vec![])),
    ]));
    assert_eq!(r.get("ok").and_then(|v| v.as_bool()), Some(true));
    assert_eq!(r.get("result").and_then(|v| str_field(v, "plugin")), Some("telegram"));
}

#[test]
fn admin_unknown_method_returns_err() {
    let r = admin_handle(&obj(vec![
        ("method", s("nexo/admin/telegram/nonexistent")),
        ("params", obj(vec![])),
    ]));
    assert_eq!(r.get("ok").and_then(|v| v.as_bool()), Some(false));
}

#[test]
fn metrics_scrape_returns_telegram_namespaced_metrics() {
    let r = metrics_scrape(&obj(vec![]));
    let text = str_field(&r, "text").expect("text");
    assert!(text.contains("telegram_plugin_ready 1"));
    assert!(text.contains("telegram_plugin_version_info"));
}

// ── further cases ──────────────────────────────────────────────

#[test]
fn normalize_missing_or_empty_raw_is_rejected() {
    let r = pairing_normalize_sender(&obj(vec![]));
    assert!(r.get("normalized").unwrap().is_null());
    let r = pairing_normalize_sender(&obj(vec![("raw", s(""))]));
    assert!(r.get("normalized").unwrap().is_null());
    let r = pairing_normalize_sender(&obj(vec![("raw", JsonValue::Bool(true))]));
    assert!(r.get("normalized").unwrap().is_null());
}

#[test]
fn normalize_signed_ids_pass_through() {
    let r = pairing_normalize_sender(&obj(vec![("raw", s("-1001234567890"))]));
    assert_eq!(str_field(&r, "normalized"), Some("-1001234567890"));
    let r = pairing_normalize_sender(&obj(vec![("raw", s("+42"))]));
    assert_eq!(str_field(&r, "normalized"), Some("+42"));
}

#[test]
fn normalize_rejects_handle_without_at_and_overflowing_number() {
    let r = pairing_normalize_sender(&obj(vec![("raw", s("user_name"))]));
    assert!(r.get("normalized").unwrap().is_null());
    // Beyond i64: not a chat id, and not a handle either.
    let r = pairing_normalize_sender(&obj(vec![("raw", s("99999999999999999999"))]));
    assert!(r.get("normalized").unwrap().is_null());
}

#[test]
fn normalize_handle_length_bounds() {
    let five = format!("@{}", "a".repeat(5));
    let r = pairing_normalize_sender(&obj(vec![("raw", s(&five))]));
    assert_eq!(str_field(&r, "normalized"), Some(five.as_str()));
    let thirty_two = format!("@{}", "B".repeat(32));
    let r = pairing_normalize_sender(&obj(vec![("raw", s(&thirty_two))]));
    assert_eq!(str_field(&r, "normalized"), Some(format!("@{}", "b".repeat(32)).as_str()));
    let thirty_three = format!("@{}", "c".repeat(33));
    let r = pairing_normalize_sender(&obj(vec![("raw", s(&thirty_three))]));
    assert!(r.get("normalized").unwrap().is_null());
}

#[test]
fn normalize_is_stable_on_its_own_output() {
    for raw in ["@Some_User", "123", "-77"] {
        let first = pairing_normalize_sender(&obj(vec![("raw", s(raw))]));
        let n = str_field(&first, "normalized").unwrap().to_string();
        let second = pairing_normalize_sender(&obj(vec![("raw", s(&n))]));
        assert_eq!(str_field(&second, "normalized"), Some(n.as_str()));
    }
}

#[test]
fn normalized_handle_checks_the_lowered_body() {
    assert_eq!(normalized_handle("user_1"), Some("@user_1".to_string()));
    assert_eq!(normalized_handle("usér_1"), None);
    assert_eq!(normalized_handle("abcd"), None);
}

#[test]
fn send_reply_missing_account_error_text() {
    let r = pairing_send_reply(&obj(vec![("to", s("@user"))]));
    assert_eq!(r.get("ok").and_then(|v| v.as_bool()), Some(false));
    assert_eq!(str_field(&r, "error"), Some("account and to required"));
}

#[test]
fn qr_image_valid_empty_and_invalid() {
    let r = pairing_send_qr_image(&obj(vec![("png_base64", s("iVBORw0KGgo="))]));
    assert_eq!(r.get("ok").and_then(|v| v.as_bool()), Some(true));
    let r = pairing_send_qr_image(&obj(vec![("png_base64", s(""))]));
    assert_eq!(str_field(&r, "error"), Some("png_base64 decoded to empty"));
    let r = pairing_send_qr_image(&obj(vec![("png_base64", s("!!!!"))]));
    assert_eq!(r.get("ok").and_then(|v| v.as_bool()), Some(false));
    assert!(str_field(&r, "error").unwrap().starts_with("invalid base64: "));
}

#[test]
fn qr_image_reply_prefixes_decode_error() {
    let r = qr_image_reply(Err("Invalid padding".to_string()));
    assert_eq!(str_field(&r, "error"), Some("invalid base64: Invalid padding"));
    let r = qr_image_reply(Ok(vec![1, 2, 3]));
    assert_eq!(r.get("ok").and_then(|v| v.as_bool()), Some(true));
}

#[test]
fn http_health_body_and_headers() {
    let r = http_request(&obj(vec![("path", s("/telegram/health"))]));
    assert_eq!(r.get("status").and_then(|v| v.as_u64()), Some(200));
    // base64 of "telegram plugin ok\n"
    assert_eq!(str_field(&r, "body_base64"), Some("dGVsZWdyYW0gcGx1Z2luIG9rCg=="));
    match r.get("headers") {
        Some(JsonValue::Array(items)) => match &items[0] {
            JsonValue::Array(pair) => {
                assert_eq!(pair[0].as_str(), Some("Content-Type"));
                assert_eq!(pair[1].as_str(), Some("text/plain; charset=utf-8"));
            }
            other => panic!("header pair expected, got {other:?}"),
        },
        other => panic!("headers expected, got {other:?}"),
    }
}

#[test]
fn http_status_route_and_wrong_method() {
    let r = http_request(&obj(vec![("method", s("GET")), ("path", s("/telegram/status"))]));
    assert_eq!(r.get("status").and_then(|v| v.as_u64()), Some(200));
    // base64 of {"status":"ok","plugin":"telegram"}
    assert_eq!(
        str_field(&r, "body_base64"),
        Some("eyJzdGF0dXMiOiJvayIsInBsdWdpbiI6InRlbGVncmFtIn0=")
    );
    let r = http_request(&obj(vec![("method", s("POST")), ("path", s("/telegram/health"))]));
    assert_eq!(r.get("status").and_then(|v| v.as_u64()), Some(404));
    let r = http_request(&obj(vec![]));
    assert_eq!(r.get("status").and_then(|v| v.as_u64()), Some(404));
}

#[test]
fn admin_version_and_instances() {
    let r = admin_handle(&obj(vec![("method", s("nexo/admin/telegram/bot_info"))]));
    assert_eq!(r.get("result").and_then(|v| str_field(v, "version")), Some("0.3.0"));
    let r = admin_handle(&obj(vec![("method", s("nexo/admin/telegram/list_instances"))]));
    assert_eq!(r.get("ok").and_then(|v| v.as_bool()), Some(true));
    match r.get("result").and_then(|v| v.get("instances")) {
        Some(JsonValue::Array(items)) => assert!(items.is_empty()),
        other => panic!("instances expected, got {other:?}"),
    }
    let r = admin_handle(&obj(vec![("method", s("nexo/admin/telegram/nope"))]));
    assert_eq!(str_field(&r, "error"), Some("unknown admin method: nexo/admin/telegram/nope"));
}

#[test]
fn http_body_decodes_back_through_the_qr_check() {
    // The health body is non-empty, so feeding its base64 to the QR check
    // (which decodes it) is accepted; a body re-encoded with a stray
    // trailing bit is not canonical and is refused.
    let r = http_request(&obj(vec![("path", s("/telegram/health"))]));
    let b64 = str_field(&r, "body_base64").unwrap().to_string();
    let q = pairing_send_qr_image(&obj(vec![("png_base64", s(&b64))]));
    assert_eq!(q.get("ok").and_then(|v| v.as_bool()), Some(true));
    let q = pairing_send_qr_image(&obj(vec![("png_base64", s("dGVsZWdyYW0gcGx1Z2luIG9rCh=="))]));
    assert_eq!(q.get("ok").and_then(|v| v.as_bool()), Some(false));
    let q = pairing_send_qr_image(&obj(vec![("png_base64", s("dGVsZWdyYW0gcGx1Z2luIG9rCg"))]));
    assert_eq!(q.get("ok").and_then(|v| v.as_bool()), Some(false));
}

#[test]
fn metrics_lines_are_all_telegram_namespaced() {
    let a = metrics_scrape(&obj(vec![]));
    let b = metrics_scrape(&obj(vec![("anything", s("x"))]));
    let ta = str_field(&a, "text").unwrap();
    assert_eq!(Some(ta), str_field(&b, "text"));
    assert!(ta.ends_with('\n'));
    let lines: Vec<&str> = ta.lines().collect();
    assert_eq!(lines.len(), 6);
    for line in lines {
        assert!(
            line.starts_with("telegram_")
                || line.starts_with("# HELP telegram_")
                || line.starts_with("# TYPE telegram_"),
            "line outside the namespace: {line}"
        );
    }
}

#[test]
fn normalize_non_ascii_handles() {
    // Lowercased through the Unicode tables, the body keeps a non-ASCII
    // letter and is refused; a Kelvin sign lowercases to ASCII `k`.
    let r = pairing_normalize_sender(&obj(vec![("raw", s("@ÜSER_name"))]));
    assert!(r.get("normalized").map(|v| v.is_null()).unwrap_or(false));
    let r = pairing_normalize_sender(&obj(vec![("raw", s("@\u{212A}ELVIN_X"))]));
    assert_eq!(r.get("normalized").and_then(|v| v.as_str()), Some("@kelvin_x"));
}
