//! Auto-discovery broker handlers: each takes the JSON request payload
//! of a broker request-reply topic and gives the JSON reply payload.
//!
//! - pairing adapter: `normalize_sender`, `send_reply`, `send_qr_image`;
//! - HTTP routes the daemon proxies under `/telegram/*`;
//! - admin RPC (`nexo/admin/telegram/<verb>`);
//! - metrics scrape (Prometheus text, every series prefixed `telegram_`).

use vstd::prelude::*;
use vstd::string::*;
use crate::json::{lookup, Json, JsonValue, Num};
use crate::standard_base64::{lemma_std_base64_round_trip, std_base64, std_base64_decoded};
use vstd::utf8::encode_utf8;
use crate::text::{
    ascii_lower, ascii_lowercase, chars_of, concat, has_prefix, is_ascii_alphanumeric, parse_i64, parse_i64_chars, str_eq,
};

verus! {

broadcast use vstd::string::group_string_axioms;

/// The version this plugin reports to the admin RPC and the metrics.
pub const PLUGIN_VERSION: &'static str = "0.3.0";

/// `{ key: value }`.
pub open spec fn obj1(key: Seq<char>, value: Json) -> Json {
    Json::Obj(seq![(key, value)])
}

/// `{ k1: v1, k2: v2 }`.
pub open spec fn obj2(k1: Seq<char>, v1: Json, k2: Seq<char>, v2: Json) -> Json {
    Json::Obj(seq![(k1, v1), (k2, v2)])
}

/// `{ k1: v1, k2: v2, k3: v3 }`.
pub open spec fn obj3(k1: Seq<char>, v1: Json, k2: Seq<char>, v2: Json, k3: Seq<char>, v3: Json) -> Json {
    Json::Obj(seq![(k1, v1), (k2, v2), (k3, v3)])
}

/// `{"ok": false, "error": message}`.
pub open spec fn failure(message: Seq<char>) -> Json {
    obj2("ok"@, Json::Bool(false), "error"@, Json::Str(message))
}

/// `{"ok": true}`.
pub open spec fn ack() -> Json {
    obj1("ok"@, Json::Bool(true))
}

/// A string field of the request, or `default` where it is absent or
/// not a string.
pub open spec fn field_or(request: Json, key: Seq<char>, default: Seq<char>) -> Seq<char> {
    match request.str_at(key) {
        Some(s) => s,
        None => default,
    }
}

/// Builds `{ k: v }`.
pub fn object1(k: &str, v: JsonValue) -> (r: JsonValue)
    ensures
        r@ == obj1(k@, v@),
{
    let mut r = JsonValue::new_object();
    r.push_entry(k, v);
    assert(Seq::<(Seq<char>, Json)>::empty().push((k@, v@)) =~= seq![(k@, v@)]);
    r
}

/// Builds `{ k1: v1, k2: v2 }`.
pub fn object2(k1: &str, v1: JsonValue, k2: &str, v2: JsonValue) -> (r: JsonValue)
    ensures
        r@ == obj2(k1@, v1@, k2@, v2@),
{
    let mut r = object1(k1, v1);
    r.push_entry(k2, v2);
    assert(seq![(k1@, v1@)].push((k2@, v2@)) =~= seq![(k1@, v1@), (k2@, v2@)]);
    r
}

/// Builds `{ k1: v1, k2: v2, k3: v3 }`.
pub fn object3(k1: &str, v1: JsonValue, k2: &str, v2: JsonValue, k3: &str, v3: JsonValue) -> (r:
    JsonValue)
    ensures
        r@ == obj3(k1@, v1@, k2@, v2@, k3@, v3@),
{
    let mut r = object2(k1, v1, k2, v2);
    r.push_entry(k3, v3);
    assert(seq![(k1@, v1@), (k2@, v2@)].push((k3@, v3@)) =~= seq![
        (k1@, v1@),
        (k2@, v2@),
        (k3@, v3@),
    ]);
    r
}

fn failure_reply(message: &str) -> (r: JsonValue)
    ensures
        r@ == failure(message@),
{
    object2("ok", JsonValue::Bool(false), "error", JsonValue::from_str(message))
}

fn ack_reply() -> (r: JsonValue)
    ensures
        r@ == ack(),
{
    object1("ok", JsonValue::Bool(true))
}

fn field_or_default<'a>(request: &'a JsonValue, key: &str, default: &'a str) -> (r: &'a str)
    ensures
        r@ == field_or(request@, key@, default@),
{
    match request.str_at(key) {
        Some(s) => s,
        None => default,
    }
}

// ── pairing adapter ────────────────────────────────────────────

/// Whether every character of a text is ASCII.
pub open spec fn is_ascii_text(s: Seq<char>) -> bool {
    forall|i: int| 0 <= i < s.len() ==> #[trigger] s[i] <= '\u{7f}'
}

/// Names what `str::to_lowercase` gives for a text that holds a non-ASCII
/// character (the Unicode lowercase mapping, character by character).
pub uninterp spec fn unicode_lowercase(s: Seq<char>) -> Seq<char>;

/// What `str::to_lowercase` gives: on ASCII text, ASCII lowercasing
/// (`A`-`Z` to `a`-`z`, everything else kept); on other text, the Unicode
/// mapping, in which no ASCII uppercase letter is left.
pub open spec fn lowercased(s: Seq<char>) -> Seq<char> {
    if is_ascii_text(s) {
        ascii_lowercase(s)
    } else {
        ascii_lowercase(unicode_lowercase(s))
    }
}

/// `s.to_lowercase()`. std documents the result as the lowercase
/// equivalent of `s`, "lowercase" in the sense of the Unicode Derived Core
/// Property Lowercase, and `str::to_ascii_lowercase` as its ASCII-only
/// counterpart. The contract claims: on ASCII text the two agree; on any
/// other text the result holds no ASCII uppercase letter (it equals its
/// own ASCII lowercasing) and is otherwise a function of `s` alone, named
/// [`unicode_lowercase`]; the Unicode case tables are left to std.
#[verifier::external_body]
fn to_lowercase(s: &str) -> (r: String)
    ensures
        is_ascii_text(s@) ==> r@ == ascii_lowercase(s@),
        !is_ascii_text(s@) ==> r@ == ascii_lowercase(unicode_lowercase(s@)),
{
    s.to_lowercase()
}

/// The part after `@` of a Telegram username: 5 to 32 characters, each
/// an ASCII letter, digit or underscore.
pub open spec fn is_handle_body(s: Seq<char>) -> bool {
    &&& 5 <= s.len() <= 32
    &&& forall|i: int| 0 <= i < s.len() ==> is_ascii_alphanumeric(#[trigger] s[i]) || s[i] == '_'
}

/// The canonical `@handle` for an already lowercased handle body.
pub open spec fn handle_from_lowered(lowered: Seq<char>) -> Option<Seq<char>> {
    if is_handle_body(lowered) {
        Some(seq!['@'] + lowered)
    } else {
        None
    }
}

/// The canonical form of a Telegram sender: a numeric chat id passes
/// through unchanged; `@handle` is lowercased and kept if it is a valid
/// username; anything else (and the empty sender) is rejected.
pub open spec fn normalized_sender(raw: Seq<char>) -> Option<Seq<char>> {
    if raw.len() == 0 {
        None
    } else if parse_i64(raw) is Ok {
        Some(raw)
    } else if raw[0] != '@' {
        None
    } else {
        handle_from_lowered(lowercased(raw.drop_first()))
    }
}

/// `{"normalized": <canonical>}` or `{"normalized": null}`.
pub open spec fn normalize_reply(n: Option<Seq<char>>) -> Json {
    obj1(
        "normalized"@,
        match n {
            Some(s) => Json::Str(s),
            None => Json::Null,
        },
    )
}

/// Keeps an already lowercased handle body, with its `@`, when it is a
/// valid Telegram username.
pub fn normalized_handle(lowered: &str) -> (r: Option<String>)
    ensures
        r matches Some(s) ==> handle_from_lowered(lowered@) == Some(s@),
        r is None ==> handle_from_lowered(lowered@) is None,
{
    let cs = chars_of(lowered);
    if cs.len() < 5 || cs.len() > 32 {
        return None;
    }
    let mut i: usize = 0;
    while i < cs.len()
        invariant
            cs@ == lowered@,
            0 <= i <= cs@.len(),
            forall|j: int| 0 <= j < i ==> is_ascii_alphanumeric(#[trigger] cs@[j]) || cs@[j] == '_',
        decreases cs@.len() - i,
    {
        let c = cs[i];
        if !(('0' <= c && c <= '9') || ('a' <= c && c <= 'z') || ('A' <= c && c <= 'Z') || c
            == '_') {
            assert(!(is_ascii_alphanumeric(cs@[i as int]) || cs@[i as int] == '_'));
            return None;
        }
        i = i + 1;
    }
    let r = concat("@", lowered);
    proof {
        reveal_strlit("@");
        assert(r@ =~= seq!['@'] + lowered@);
    }
    Some(r)
}

/// Canonicalises an inbound Telegram sender id.
///
/// Request: `{ "raw": "<raw-sender>" }`. Reply: `{ "normalized":
/// "<canonical>" }`, or `{ "normalized": null }` to reject.
pub fn pairing_normalize_sender(request: &JsonValue) -> (r: JsonValue)
    ensures
        r@ == normalize_reply(normalized_sender(field_or(request@, "raw"@, Seq::empty()))),
{
    let raw = field_or_default(request, "raw", "");
    proof {
        reveal_strlit("");
        assert(""@ =~= Seq::<char>::empty());
    }
    let cs = chars_of(raw);
    if cs.len() == 0 {
        return object1("normalized", JsonValue::Null);
    }
    if parse_i64_chars(&cs).is_ok() {
        return object1("normalized", JsonValue::from_str(raw));
    }
    if cs[0] != '@' {
        return object1("normalized", JsonValue::Null);
    }
    let rest = raw.substring_char(1, cs.len());
    assert(rest@ == raw@.drop_first());
    let lower = to_lowercase(rest);
    match normalized_handle(lower.as_str()) {
        Some(n) => object1("normalized", JsonValue::String(n)),
        None => object1("normalized", JsonValue::Null),
    }
}

/// The reply to a pairing `send_reply` request: both the account and
/// the recipient are required.
pub open spec fn send_reply_reply(request: Json) -> Json {
    if field_or(request, "account"@, Seq::empty()).len() == 0 || field_or(
        request,
        "to"@,
        Seq::empty(),
    ).len() == 0 {
        failure("account and to required"@)
    } else {
        ack()
    }
}

/// Delivers a plain-text pairing reply to a Telegram sender: validates
/// the request and acknowledges it.
///
/// Request: `{ "account", "to", "text" }`. Reply: `{"ok": true}`, or
/// `{"ok": false, "error": ...}` when `account` or `to` is missing.
pub fn pairing_send_reply(request: &JsonValue) -> (r: JsonValue)
    ensures
        r@ == send_reply_reply(request@),
{
    let account = field_or_default(request, "account", "");
    let to = field_or_default(request, "to", "");
    proof {
        reveal_strlit("");
    }
    if account.unicode_len() == 0 || to.unicode_len() == 0 {
        return failure_reply("account and to required");
    }
    ack_reply()
}

/// Names the `Display` text of the error the base64 crate's standard
/// engine reports for a text that is not a standard encoding (the kind of
/// fault and its offset).
pub uninterp spec fn base64_decode_error(text: Seq<char>) -> Seq<char>;

/// What decoding a text as standard base64 gives: the bytes it encodes,
/// or the decode error's text.
pub open spec fn base64_decoding(text: Seq<char>) -> Result<Seq<u8>, Seq<char>> {
    match std_base64_decoded(text) {
        Some(b) => Ok(b),
        None => Err(base64_decode_error(text)),
    }
}

/// `base64::engine::general_purpose::STANDARD.decode(text.as_bytes())`,
/// with the error turned into its `Display` text. The `STANDARD` engine
/// requires canonical padding and zero trailing bits, so it accepts
/// exactly the texts that are the standard encoding of some bytes (a
/// non-ASCII character is never in its alphabet) and gives those bytes.
/// The contract claims that; the error's text is left to the crate,
/// named [`base64_decode_error`].
#[verifier::external_body]
fn base64_decode(text: &str) -> (r: Result<Vec<u8>, String>)
    ensures
        decoded_view(r) == match std_base64_decoded(text@) {
            Some(b) => Ok::<Seq<u8>, Seq<char>>(b),
            None => Err(base64_decode_error(text@)),
        },
{
    match base64::Engine::decode(&base64::engine::general_purpose::STANDARD, text.as_bytes()) {
        Ok(bytes) => Ok(bytes),
        Err(e) => Err(e.to_string()),
    }
}

/// The view of a decode outcome.
pub open spec fn decoded_view(r: Result<Vec<u8>, String>) -> Result<Seq<u8>, Seq<char>> {
    match r {
        Ok(v) => Ok(v@),
        Err(m) => Err(m@),
    }
}

/// The reply to a QR image whose base64 decoded as `decoded`.
pub open spec fn qr_reply(decoded: Result<Seq<u8>, Seq<char>>) -> Json {
    match decoded {
        Ok(bytes) => if bytes.len() > 0 {
            ack()
        } else {
            failure("png_base64 decoded to empty"@)
        },
        Err(m) => failure("invalid base64: "@ + m),
    }
}

/// The reply once the QR image's base64 has been decoded.
pub fn qr_image_reply(decoded: Result<Vec<u8>, String>) -> (r: JsonValue)
    ensures
        r@ == qr_reply(decoded_view(decoded)),
{
    match decoded {
        Ok(bytes) => if bytes.len() > 0 {
            ack_reply()
        } else {
            failure_reply("png_base64 decoded to empty")
        },
        Err(m) => {
            let message = concat("invalid base64: ", m.as_str());
            failure_reply(message.as_str())
        },
    }
}

/// Checks a pairing QR image: the PNG must be valid, non-empty base64.
///
/// Request: `{ "png_base64": "<b64>" }`. Reply: `{"ok": true}` or
/// `{"ok": false, "error": ...}`.
pub fn pairing_send_qr_image(request: &JsonValue) -> (r: JsonValue)
    ensures
        r@ == qr_reply(base64_decoding(field_or(request@, "png_base64"@, Seq::empty()))),
{
    let png_b64 = field_or_default(request, "png_base64", "");
    proof {
        reveal_strlit("");
        assert(""@ =~= Seq::<char>::empty());
    }
    qr_image_reply(base64_decode(png_b64))
}

// ── HTTP routes ────────────────────────────────────────────────

/// `base64::engine::general_purpose::STANDARD.encode(bytes)`: the
/// standard padded encoding, [`std_base64`].
#[verifier::external_body]
fn base64_encode(bytes: &[u8]) -> (r: String)
    ensures
        r@ == std_base64(bytes@),
{
    base64::Engine::encode(&base64::engine::general_purpose::STANDARD, bytes)
}

/// The JSON shape of a proxied HTTP response.
pub open spec fn http_response(status: u16, content_type: Seq<char>, body: Seq<char>) -> Json {
    obj3(
        "status"@,
        Json::Number(Num::PosInt(status as u64)),
        "headers"@,
        Json::Arr(seq![Json::Arr(seq![Json::Str("Content-Type"@), Json::Str(content_type)])]),
        "body_base64"@,
        Json::Str(std_base64(encode_utf8(body))),
    )
}

/// A proxied HTTP response once its body has been base64-encoded.
pub fn response_envelope(status: u16, content_type: &str, body_base64: String) -> (r: JsonValue)
    ensures
        r@ == obj3(
            "status"@,
            Json::Number(Num::PosInt(status as u64)),
            "headers"@,
            Json::Arr(seq![Json::Arr(seq![Json::Str("Content-Type"@), Json::Str(content_type@)])]),
            "body_base64"@,
            Json::Str(body_base64@),
        ),
{
    let mut header: Vec<JsonValue> = Vec::new();
    header.push(JsonValue::from_str("Content-Type"));
    header.push(JsonValue::from_str(content_type));
    let ghost hv = header@;
    let header = JsonValue::from_items(header);
    assert(hv.map_values(|v: JsonValue| v@) =~= seq![Json::Str("Content-Type"@), Json::Str(content_type@)]);
    let mut headers: Vec<JsonValue> = Vec::new();
    headers.push(header);
    let ghost hsv = headers@;
    let headers = JsonValue::from_items(headers);
    assert(hsv.map_values(|v: JsonValue| v@) =~= seq![
        Json::Arr(seq![Json::Str("Content-Type"@), Json::Str(content_type@)]),
    ]);
    object3(
        "status",
        JsonValue::from_u64(status as u64),
        "headers",
        headers,
        "body_base64",
        JsonValue::String(body_base64),
    )
}

/// A proxied HTTP response: the status, one `Content-Type` header, and
/// the body base64-encoded; the `body_base64` field decodes back to the
/// UTF-8 bytes of the body.
pub fn respond(status: u16, content_type: &str, body: &str) -> (r: JsonValue)
    ensures
        r@ == http_response(status, content_type@, body@),
        r@.str_at("body_base64"@) matches Some(b64) && base64_decoding(b64) == Ok::<
            Seq<u8>,
            Seq<char>,
        >(encode_utf8(body@)),
{
    proof {
        lemma_http_body_round_trip(status, content_type@, body@);
    }
    response_envelope(status, content_type, base64_encode(body.as_bytes()))
}

/// The routes the plugin serves: `GET /telegram/health` (plain text),
/// `GET /telegram/status` (JSON); anything else is a JSON 404.
pub open spec fn http_reply(method: Seq<char>, path: Seq<char>) -> Json {
    if method == "GET"@ && path == "/telegram/health"@ {
        http_response(200, "text/plain; charset=utf-8"@, "telegram plugin ok\n"@)
    } else if method == "GET"@ && path == "/telegram/status"@ {
        http_response(
            200,
            "application/json; charset=utf-8"@,
            "{\"status\":\"ok\",\"plugin\":\"telegram\"}"@,
        )
    } else {
        http_response(404, "application/json; charset=utf-8"@, "{\"error\":\"not found\"}"@)
    }
}

/// Handles an HTTP request the daemon proxied under `/telegram/*`.
///
/// Request: `{ "method", "path" }` (defaults `GET` and `/`). Reply:
/// `{ "status", "headers", "body_base64" }`.
pub fn http_request(request: &JsonValue) -> (r: JsonValue)
    ensures
        r@ == http_reply(field_or(request@, "method"@, "GET"@), field_or(request@, "path"@, "/"@)),
{
    let path = field_or_default(request, "path", "/");
    let method = field_or_default(request, "method", "GET");
    let get = str_eq(method, "GET");
    if get && str_eq(path, "/telegram/health") {
        proof {
            reveal_strlit("telegram plugin ok\n");
        }
        respond(200, "text/plain; charset=utf-8", "telegram plugin ok\n")
    } else if get && str_eq(path, "/telegram/status") {
        proof {
            reveal_strlit("{\"status\":\"ok\",\"plugin\":\"telegram\"}");
        }
        respond(
            200,
            "application/json; charset=utf-8",
            "{\"status\":\"ok\",\"plugin\":\"telegram\"}",
        )
    } else {
        proof {
            reveal_strlit("{\"error\":\"not found\"}");
        }
        respond(404, "application/json; charset=utf-8", "{\"error\":\"not found\"}")
    }
}

// ── admin RPC ──────────────────────────────────────────────────

/// The admin methods: `bot_info` reports the plugin and its version,
/// `list_instances` the declared instances (none); any other method is
/// refused with its name.
pub open spec fn admin_reply(method: Seq<char>) -> Json {
    if method == "nexo/admin/telegram/bot_info"@ {
        obj2(
            "ok"@,
            Json::Bool(true),
            "result"@,
            obj2("plugin"@, Json::Str("telegram"@), "version"@, Json::Str(PLUGIN_VERSION@)),
        )
    } else if method == "nexo/admin/telegram/list_instances"@ {
        obj2("ok"@, Json::Bool(true), "result"@, obj1("instances"@, Json::Arr(Seq::empty())))
    } else {
        failure("unknown admin method: "@ + method)
    }
}

/// Handles a daemon-forwarded admin RPC (`nexo/admin/telegram/<verb>`).
///
/// Request: `{ "method", "params" }`. Reply: `{ "ok": true, "result" }`
/// or `{ "ok": false, "error" }`.
pub fn admin_handle(request: &JsonValue) -> (r: JsonValue)
    ensures
        r@ == admin_reply(field_or(request@, "method"@, Seq::empty())),
{
    let method = field_or_default(request, "method", "");
    proof {
        reveal_strlit("");
        assert(""@ =~= Seq::<char>::empty());
    }
    if str_eq(method, "nexo/admin/telegram/bot_info") {
        let result = object2(
            "plugin",
            JsonValue::from_str("telegram"),
            "version",
            JsonValue::from_str(PLUGIN_VERSION),
        );
        object2("ok", JsonValue::Bool(true), "result", result)
    } else if str_eq(method, "nexo/admin/telegram/list_instances") {
        let none: Vec<JsonValue> = Vec::new();
        let ghost nv = none@;
        let instances = JsonValue::from_items(none);
        assert(nv.map_values(|v: JsonValue| v@) =~= Seq::<Json>::empty());
        let result = object1("instances", instances);
        object2("ok", JsonValue::Bool(true), "result", result)
    } else {
        let message = concat("unknown admin method: ", method);
        failure_reply(message.as_str())
    }
}

// ── metrics scrape ─────────────────────────────────────────────

/// The Prometheus text the plugin exposes.
pub open spec fn metrics_text() -> Seq<char> {
    "# HELP telegram_plugin_ready Whether the telegram plugin is up.\n# TYPE telegram_plugin_ready gauge\ntelegram_plugin_ready 1\n# HELP telegram_plugin_version_info Plugin version label.\n# TYPE telegram_plugin_version_info gauge\ntelegram_plugin_version_info{version=\"0.3.0\"} 1\n"@
}

/// Emits Prometheus text for the daemon's `/metrics` aggregator. Every
/// series is prefixed `telegram_`. Reply: `{ "text": "<prometheus>" }`.
pub fn metrics_scrape(_request: &JsonValue) -> (r: JsonValue)
    ensures
        r@ == obj1("text"@, Json::Str(metrics_text())),
{
    object1(
        "text",
        JsonValue::from_str(
            "# HELP telegram_plugin_ready Whether the telegram plugin is up.\n# TYPE telegram_plugin_ready gauge\ntelegram_plugin_ready 1\n# HELP telegram_plugin_version_info Plugin version label.\n# TYPE telegram_plugin_version_info gauge\ntelegram_plugin_version_info{version=\"0.3.0\"} 1\n",
        ),
    )
}

/// Lines joined into a text, each ended by `\n`.
pub open spec fn lines_text(lines: Seq<Seq<char>>) -> Seq<char>
    decreases lines.len(),
{
    if lines.len() == 0 {
        Seq::empty()
    } else {
        lines_text(lines.drop_last()) + lines.last() + seq!['\n']
    }
}

/// The lines of the metrics text.
pub open spec fn metrics_lines() -> Seq<Seq<char>> {
    seq![
        "# HELP telegram_plugin_ready Whether the telegram plugin is up."@,
        "# TYPE telegram_plugin_ready gauge"@,
        "telegram_plugin_ready 1"@,
        "# HELP telegram_plugin_version_info Plugin version label."@,
        "# TYPE telegram_plugin_version_info gauge"@,
        "telegram_plugin_version_info{version=\"0.3.0\"} 1"@,
    ]
}

/// A Prometheus line that belongs to the `telegram_` namespace: a sample
/// of a `telegram_` series, or a `# HELP` / `# TYPE` comment about one.
pub open spec fn telegram_namespaced(line: Seq<char>) -> bool {
    ||| has_prefix(line, "telegram_"@)
    ||| has_prefix(line, "# HELP telegram_"@)
    ||| has_prefix(line, "# TYPE telegram_"@)
}

/// Every line of the metrics text is in the `telegram_` namespace: each
/// sample names a series that starts with `telegram_`, and so does each
/// `# HELP` and `# TYPE` comment. (What the text is does not depend on
/// the request: [`metrics_scrape`] ensures it.)
pub proof fn lemma_metrics_are_telegram_namespaced()
    ensures
        metrics_text() == lines_text(metrics_lines()),
        forall|i: int| 0 <= i < metrics_lines().len() ==> telegram_namespaced(#[trigger] metrics_lines()[i]),
        forall|i: int, j: int|
            0 <= i < metrics_lines().len() && 0 <= j < metrics_lines()[i].len() ==> #[trigger] metrics_lines()[i][j] != '\n',
{
    reveal_strlit("# HELP telegram_plugin_ready Whether the telegram plugin is up.\n# TYPE telegram_plugin_ready gauge\ntelegram_plugin_ready 1\n# HELP telegram_plugin_version_info Plugin version label.\n# TYPE telegram_plugin_version_info gauge\ntelegram_plugin_version_info{version=\"0.3.0\"} 1\n");
    reveal_strlit("# HELP telegram_plugin_ready Whether the telegram plugin is up.");
    reveal_strlit("# TYPE telegram_plugin_ready gauge");
    reveal_strlit("telegram_plugin_ready 1");
    reveal_strlit("# HELP telegram_plugin_version_info Plugin version label.");
    reveal_strlit("# TYPE telegram_plugin_version_info gauge");
    reveal_strlit("telegram_plugin_version_info{version=\"0.3.0\"} 1");
    reveal_strlit("telegram_");
    reveal_strlit("# HELP telegram_");
    reveal_strlit("# TYPE telegram_");
    let lines = metrics_lines();
    reveal_with_fuel(lines_text, 7);
    assert(lines.drop_last().drop_last().drop_last().drop_last().drop_last().drop_last() =~= Seq::<Seq<char>>::empty());
    assert(metrics_text() =~= lines_text(lines));
    assert(lines[0].subrange(0, 16) =~= "# HELP telegram_"@);
    assert(lines[1].subrange(0, 16) =~= "# TYPE telegram_"@);
    assert(lines[2].subrange(0, 9) =~= "telegram_"@);
    assert(lines[3].subrange(0, 16) =~= "# HELP telegram_"@);
    assert(lines[4].subrange(0, 16) =~= "# TYPE telegram_"@);
    assert(lines[5].subrange(0, 9) =~= "telegram_"@);
}

/// The body of a proxied HTTP response round-trips: its `body_base64`
/// field decodes back to the UTF-8 bytes of the body.
pub proof fn lemma_http_body_round_trip(status: u16, content_type: Seq<char>, body: Seq<char>)
    ensures
        http_response(status, content_type, body).str_at("body_base64"@) matches Some(b64)
            && base64_decoding(b64) == Ok::<Seq<u8>, Seq<char>>(encode_utf8(body)),
{
    lemma_std_base64_round_trip(encode_utf8(body));
    let j = http_response(status, content_type, body);
    reveal_strlit("status");
    reveal_strlit("headers");
    reveal_strlit("body_base64");
    assert("status"@.len() != "body_base64"@.len());
    assert("headers"@.len() != "body_base64"@.len());
    let e = j.entries();
    assert(e[0].0 != "body_base64"@);
    assert(e.drop_first()[0].0 != "body_base64"@);
    assert(e.drop_first().drop_first()[0] == ("body_base64"@, Json::Str(std_base64(encode_utf8(body)))));
    reveal_with_fuel(lookup, 3);
    assert(j.str_at("body_base64"@) == Some(std_base64(encode_utf8(body))));
}

/// The body an HTTP route answers with, by method and path.
pub open spec fn served_body(method: Seq<char>, path: Seq<char>) -> Seq<char> {
    if method != "GET"@ {
        "{\"error\":\"not found\"}"@
    } else if path == "/telegram/health"@ {
        "telegram plugin ok\n"@
    } else if path == "/telegram/status"@ {
        "{\"status\":\"ok\",\"plugin\":\"telegram\"}"@
    } else {
        "{\"error\":\"not found\"}"@
    }
}

/// Only `GET` is served: a request with any other method gets a 404 and
/// the `not found` body whatever its path. A `GET` of `/telegram/health`
/// or `/telegram/status` gets a 200 with that route's body; a `GET` of any
/// other path gets the 404.
pub proof fn lemma_http_routes(method: Seq<char>, path: Seq<char>)
    ensures
        http_reply(method, path).get("status"@) == Some(
            Json::Number(
                Num::PosInt(
                    if method == "GET"@ && (path == "/telegram/health"@ || path == "/telegram/status"@) {
                        200u64
                    } else {
                        404u64
                    },
                ),
            ),
        ),
        http_reply(method, path).str_at("body_base64"@) matches Some(b64) && base64_decoding(b64)
            == Ok::<Seq<u8>, Seq<char>>(encode_utf8(served_body(method, path))),
        method != "GET"@ ==> served_body(method, path) == "{\"error\":\"not found\"}"@,
        http_reply(method, path).get("headers"@) == Some(
            Json::Arr(
                seq![
                    Json::Arr(
                        seq![
                            Json::Str("Content-Type"@),
                            Json::Str(
                                if method == "GET"@ && path == "/telegram/health"@ {
                                    "text/plain; charset=utf-8"@
                                } else {
                                    "application/json; charset=utf-8"@
                                },
                            ),
                        ],
                    ),
                ],
            ),
        ),
{
    let (status, ct): (u16, Seq<char>) = if method == "GET"@ && path == "/telegram/health"@ {
        (200, "text/plain; charset=utf-8"@)
    } else if method == "GET"@ && path == "/telegram/status"@ {
        (200, "application/json; charset=utf-8"@)
    } else {
        (404, "application/json; charset=utf-8"@)
    };
    reveal_strlit("/telegram/health");
    reveal_strlit("/telegram/status");
    assert("/telegram/health"@[10] != "/telegram/status"@[10]);
    lemma_http_body_round_trip(status, ct, served_body(method, path));
    assert(http_reply(method, path) == http_response(status, ct, served_body(method, path)));
    reveal_strlit("status");
    reveal_strlit("headers");
    assert("status"@.len() != "headers"@.len());
    reveal_with_fuel(lookup, 2);
}

/// A character of a canonical handle: an ASCII digit, lowercase letter
/// or underscore.
pub open spec fn handle_char(c: char) -> bool {
    ('0' <= c && c <= '9') || ('a' <= c && c <= 'z') || c == '_'
}

/// The sender rules: the empty sender is rejected; a sender that parses
/// as an `i64` chat id passes through unchanged; anything else must be
/// `@` and a username body. An ASCII body is accepted exactly when it is
/// 5 to 32 ASCII letters, digits or underscores, and comes back
/// lowercased. Whatever is accepted is the sender itself (a chat id) or
/// `@` and 5 to 32 lowercase letters, digits or underscores.
pub proof fn lemma_sender_rules(raw: Seq<char>)
    ensures
        raw.len() == 0 ==> normalized_sender(raw) is None,
        parse_i64(raw) is Ok ==> normalized_sender(raw) == Some(raw),
        parse_i64(raw) is Err && (raw.len() == 0 || raw[0] != '@') ==> normalized_sender(raw) is None,
        parse_i64(raw) is Err && raw.len() > 0 && raw[0] == '@' && is_ascii_text(raw.drop_first())
            ==> normalized_sender(raw) == if 6 <= raw.len() <= 33 && (forall|i: int|
            1 <= i < raw.len() ==> #[trigger] is_ascii_alphanumeric(raw[i]) || raw[i] == '_') {
            Some(seq!['@'] + ascii_lowercase(raw.drop_first()))
        } else {
            None::<Seq<char>>
        },
        normalized_sender(raw) matches Some(n) ==> n == raw || (n[0] == '@' && 6 <= n.len() <= 33
            && forall|i: int| 1 <= i < n.len() ==> #[trigger] handle_char(n[i])),
{
    if raw.len() > 0 && parse_i64(raw) is Err && raw[0] == '@' {
        let body = raw.drop_first();
        let x = if is_ascii_text(body) { body } else { unicode_lowercase(body) };
        let l = lowercased(body);
        assert(l == ascii_lowercase(x));
        assert forall|i: int| 0 <= i < x.len() implies (is_ascii_alphanumeric(#[trigger] l[i]) || l[i] == '_')
            == (is_ascii_alphanumeric(x[i]) || x[i] == '_') && !('A' <= l[i] && l[i] <= 'Z') by {
            let c = x[i];
            if 'A' <= c && c <= 'Z' {
                assert(c as u8 + 32 <= 'z' as u8);
            }
        }
        if is_ascii_text(body) {
            if 5 <= body.len() <= 32 && (forall|i: int|
                1 <= i < raw.len() ==> #[trigger] is_ascii_alphanumeric(raw[i]) || raw[i] == '_') {
                assert forall|i: int| 0 <= i < l.len() implies is_ascii_alphanumeric(#[trigger] l[i]) || l[i] == '_' by {
                    assert(body[i] == raw[i + 1]);
                }
            } else if 5 <= body.len() <= 32 {
                let k = choose|i: int| 1 <= i < raw.len() && !(#[trigger] is_ascii_alphanumeric(raw[i]) || raw[i] == '_');
                assert(body[k - 1] == raw[k]);
                assert(!(is_ascii_alphanumeric(l[k - 1]) || l[k - 1] == '_'));
            }
        }
        if normalized_sender(raw) is Some {
            let n = normalized_sender(raw)->0;
            assert(n == seq!['@'] + l);
            assert forall|i: int| 1 <= i < n.len() implies #[trigger] handle_char(n[i]) by {
                assert(n[i] == l[i - 1]);
            }
        }
    }
}

/// A QR image is accepted exactly when its text is the standard base64
/// of some non-empty bytes. The encoding of nothing is refused as empty;
/// a text that encodes no bytes at all is refused as invalid base64, with
/// the decoder's reason.
pub proof fn lemma_qr_rules(text: Seq<char>, b: Seq<u8>)
    ensures
        qr_reply(base64_decoding(std_base64(b))) == if b.len() > 0 {
            Json::Obj(seq![("ok"@, Json::Bool(true))])
        } else {
            Json::Obj(seq![("ok"@, Json::Bool(false)), ("error"@, Json::Str("png_base64 decoded to empty"@))])
        },
        (forall|c: Seq<u8>| std_base64(c) != text) ==> qr_reply(base64_decoding(text)) == Json::Obj(
            seq![
                ("ok"@, Json::Bool(false)),
                ("error"@, Json::Str("invalid base64: "@ + base64_decode_error(text))),
            ],
        ),
{
    lemma_std_base64_round_trip(b);
}

/// A pairing reply is acknowledged only when the request names both the
/// account and the recipient (non-empty strings); otherwise it is refused
/// with `"ok": false` and the reason.
pub proof fn lemma_send_reply_rules(request: Json)
    ensures
        send_reply_reply(request) == if (request.str_at("account"@) matches Some(a) && a.len() > 0)
            && (request.str_at("to"@) matches Some(t) && t.len() > 0) {
            Json::Obj(seq![("ok"@, Json::Bool(true))])
        } else {
            Json::Obj(seq![("ok"@, Json::Bool(false)), ("error"@, Json::Str("account and to required"@))])
        },
{
}

/// The admin methods: `bot_info` answers with the plugin's name and
/// version, `list_instances` with no instances; any other method is
/// refused, naming it.
pub proof fn lemma_admin_methods(method: Seq<char>)
    ensures
        admin_reply("nexo/admin/telegram/bot_info"@) == Json::Obj(
            seq![
                ("ok"@, Json::Bool(true)),
                ("result"@, Json::Obj(seq![("plugin"@, Json::Str("telegram"@)), ("version"@, Json::Str("0.3.0"@))])),
            ],
        ),
        admin_reply("nexo/admin/telegram/list_instances"@) == Json::Obj(
            seq![
                ("ok"@, Json::Bool(true)),
                ("result"@, Json::Obj(seq![("instances"@, Json::Arr(Seq::empty()))])),
            ],
        ),
        method != "nexo/admin/telegram/bot_info"@ && method != "nexo/admin/telegram/list_instances"@
            ==> admin_reply(method) == Json::Obj(
            seq![("ok"@, Json::Bool(false)), ("error"@, Json::Str("unknown admin method: "@ + method))],
        ),
{
    reveal_strlit("nexo/admin/telegram/bot_info");
    reveal_strlit("nexo/admin/telegram/list_instances");
    assert("nexo/admin/telegram/bot_info"@.len() != "nexo/admin/telegram/list_instances"@.len());
}

/// ASCII lowercasing twice is ASCII lowercasing once.
pub proof fn lemma_ascii_lowercase_idempotent(s: Seq<char>)
    ensures
        ascii_lowercase(ascii_lowercase(s)) == ascii_lowercase(s),
{
    assert forall|i: int| 0 <= i < s.len() implies ascii_lower(ascii_lower(s[i])) == ascii_lower(s[i]) by {
        let c = s[i];
        if 'A' <= c && c <= 'Z' {
            assert(c as u8 + 32 <= 'z' as u8);
        }
    }
    assert(ascii_lowercase(ascii_lowercase(s)) =~= ascii_lowercase(s));
}

/// Normalising a sender a second time changes nothing: the canonical form
/// is a fixed point, both as text and as the request `{"raw": <canonical>}`.
pub proof fn lemma_normalized_sender_is_stable(raw: Seq<char>, n: Seq<char>)
    requires
        normalized_sender(raw) == Some(n),
    ensures
        normalized_sender(n) == Some(n),
        normalize_reply(normalized_sender(field_or(obj1("raw"@, Json::Str(n)), "raw"@, Seq::empty())))
            == normalize_reply(Some(n)),
{
    if parse_i64(raw) is Ok {
        assert(n == raw);
    } else {
        let body = raw.drop_first();
        let lowered = lowercased(body);
        let x = if is_ascii_text(body) { body } else { unicode_lowercase(body) };
        assert(lowered == ascii_lowercase(x));
        assert(n == seq!['@'] + lowered);
        assert(n[0] == '@');
        assert(n.drop_first() =~= lowered);
        assert(is_handle_body(lowered));
        assert(is_ascii_text(lowered));
        lemma_ascii_lowercase_idempotent(x);
        assert(lowercased(lowered) == lowered);
        assert(!crate::text::is_digit(n[0]));
        assert(crate::text::parse_integer(n, true, i64::MAX as int, 0x8000_0000_0000_0000)
            == Err::<int, crate::text::IntErrorKind>(crate::text::IntErrorKind::InvalidDigit));
    }
    let req = obj1("raw"@, Json::Str(n));
    assert(req.str_at("raw"@) == Some(n));
}

} // verus!
