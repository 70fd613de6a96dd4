use nexo_plugin_telegram::subprocess_dispatch::{
    merge_into, parse_chat_id, response_to_value, BotCall, ReplyShape, ToolPlan, ToolResponse,
};
use nexo_plugin_telegram::{
    dispatch_telegram_tool, telegram_tool_defs, tool_result, JsonNumber, JsonValue, ToolError,
    ToolInvocation,
};

fn s(x: &str) -> JsonValue {
    JsonValue::String(x.to_string())
}

fn n(i: i64) -> JsonValue {
    JsonValue::from_i64(i)
}

fn obj(pairs: Vec<(&str, JsonValue)>) -> JsonValue {
    JsonValue::Object(pairs.into_iter().map(|(k, v)| (k.to_string(), v)).collect())
}

fn invoke(tool: &str, args: JsonValue) -> Result<ToolPlan, ToolError> {
    dispatch_telegram_tool(true, ToolInvocation { tool_name: tool.to_string(), args })
}

fn str_field<'a>(v: &'a JsonValue, key: &str) -> Option<&'a str> {
    v.get(key).and_then(|x| x.as_str())
}

#[test]
fn not_started_plugin_is_unavailable() {
    let r = dispatch_telegram_tool(
        false,
        ToolInvocation {
            tool_name: "telegram_send_message".to_string(),
            args: obj(vec![("chat_id", n(12345)), ("text", s("hi"))]),
        },
    );
    assert_eq!(
        r.unwrap_err(),
        ToolError::Unavailable("telegram subprocess plugin not started (no bot client)".to_string())
    );
}

#[test]
fn unknown_tool_is_not_found() {
    let r = invoke("telegram_fly", obj(vec![]));
    assert_eq!(r.unwrap_err(), ToolError::NotFound("telegram_fly".to_string()));
}

#[test]
fn send_message_plans_text_to_chat() {
    let plan = invoke("telegram_send_message", obj(vec![("chat_id", s("-42")), ("text", s("hi"))]))
        .unwrap();
    match plan.call {
        BotCall::SendText { chat_id, text } => {
            assert_eq!(chat_id, -42);
            assert_eq!(text, "hi");
        }
        other => panic!("unexpected call {other:?}"),
    }
    assert_eq!(plan.reply, ReplyShape::WithChatId(-42));
}

#[test]
fn argument_errors_name_the_field() {
    let err = invoke("telegram_send_message", obj(vec![("text", s("hi"))])).unwrap_err();
    assert_eq!(
        err,
        ToolError::ArgumentInvalid("`chat_id` is required (integer or numeric string)".to_string())
    );
    let err = invoke("telegram_send_message", obj(vec![("chat_id", s("12a"))])).unwrap_err();
    assert_eq!(
        err,
        ToolError::ArgumentInvalid("chat_id not parseable: invalid digit found in string".to_string())
    );
    let err = invoke("telegram_send_message", obj(vec![("chat_id", n(1))])).unwrap_err();
    assert_eq!(err, ToolError::ArgumentInvalid("`text` is required (string)".to_string()));
    let err = invoke(
        "telegram_send_reply",
        obj(vec![("chat_id", n(1)), ("reply_to_message_id", s("")), ("text", s("x"))]),
    )
    .unwrap_err();
    assert_eq!(
        err,
        ToolError::ArgumentInvalid(
            "reply_to_message_id not parseable: cannot parse integer from empty string".to_string()
        )
    );
    let err = invoke(
        "telegram_send_location",
        obj(vec![("chat_id", n(1)), ("latitude", s("1.5")), ("longitude", n(2))]),
    )
    .unwrap_err();
    assert_eq!(err, ToolError::ArgumentInvalid("`latitude` is required (number)".to_string()));
}

#[test]
fn chat_id_overflow_messages() {
    let err = parse_chat_id(&obj(vec![("chat_id", s("9223372036854775808"))])).unwrap_err();
    assert_eq!(
        err,
        ToolError::ArgumentInvalid("chat_id not parseable: number too large to fit in target type".to_string())
    );
    let err = parse_chat_id(&obj(vec![("chat_id", s("-9223372036854775809"))])).unwrap_err();
    assert_eq!(
        err,
        ToolError::ArgumentInvalid("chat_id not parseable: number too small to fit in target type".to_string())
    );
    assert_eq!(parse_chat_id(&obj(vec![("chat_id", s("-9223372036854775808"))])), Ok(i64::MIN));
    // A JSON integer beyond i64 is neither an i64 nor a string.
    let err = parse_chat_id(&obj(vec![(
        "chat_id",
        JsonValue::Number(JsonNumber::PosInt(u64::MAX)),
    )]))
    .unwrap_err();
    assert_eq!(
        err,
        ToolError::ArgumentInvalid("`chat_id` is required (integer or numeric string)".to_string())
    );
}

#[test]
fn reply_reaction_and_edit_payloads() {
    let plan = invoke(
        "telegram_send_reply",
        obj(vec![("chat_id", n(7)), ("reply_to_message_id", s("99")), ("text", s("yo"))]),
    )
    .unwrap();
    match &plan.call {
        BotCall::Custom { name, payload } => {
            assert_eq!(name, "reply");
            assert_eq!(payload.get("msg_id").and_then(|v| v.as_i64()), Some(99));
            assert_eq!(str_field(payload, "text"), Some("yo"));
        }
        other => panic!("unexpected call {other:?}"),
    }
    let plan = invoke(
        "telegram_send_reaction",
        obj(vec![("chat_id", n(7)), ("message_id", n(3)), ("emoji", s("👍"))]),
    )
    .unwrap();
    assert_eq!(plan.reply, ReplyShape::ReactionAck(7, 3));
    let plan = invoke(
        "telegram_edit_message",
        obj(vec![("chat_id", n(7)), ("message_id", n(3)), ("text", s("new"))]),
    )
    .unwrap();
    match &plan.call {
        BotCall::Custom { name, payload } => {
            assert_eq!(name, "edit_message");
            assert!(payload.get("parse_mode").unwrap().is_null());
        }
        other => panic!("unexpected call {other:?}"),
    }
}

#[test]
fn media_kinds_and_payload() {
    let plan = invoke(
        "telegram_send_media",
        obj(vec![("chat_id", s("55")), ("kind", s("photo")), ("url", s("http://x/y.png"))]),
    )
    .unwrap();
    match &plan.call {
        BotCall::Custom { name, payload } => {
            assert_eq!(name, "send_photo");
            assert_eq!(payload.get("chat_id").and_then(|v| v.as_i64()), Some(55));
            assert_eq!(str_field(payload, "url"), Some("http://x/y.png"));
            assert_eq!(str_field(payload, "kind"), Some("photo"));
        }
        other => panic!("unexpected call {other:?}"),
    }
    for (kind, cmd) in [
        ("audio", "send_audio"),
        ("voice", "send_voice"),
        ("video", "send_video"),
        ("document", "send_document"),
        ("animation", "send_animation"),
    ] {
        let plan = invoke("telegram_send_media", obj(vec![("chat_id", n(1)), ("kind", s(kind))]))
            .unwrap();
        match plan.call {
            BotCall::Custom { name, .. } => assert_eq!(name, cmd),
            other => panic!("unexpected call {other:?}"),
        }
    }
    let err = invoke("telegram_send_media", obj(vec![("chat_id", n(1)), ("kind", s("gif"))]))
        .unwrap_err();
    assert_eq!(err, ToolError::ArgumentInvalid("unknown media kind: \"gif\"".to_string()));
}

#[test]
fn location_keeps_the_numbers() {
    let plan = invoke(
        "telegram_send_location",
        obj(vec![
            ("chat_id", n(1)),
            ("latitude", JsonValue::Number(JsonNumber::Float("4.5".to_string()))),
            ("longitude", n(-74)),
        ]),
    )
    .unwrap();
    match plan.call {
        BotCall::SendLocation { chat_id, latitude, longitude } => {
            assert_eq!(chat_id, 1);
            assert!(matches!(latitude, JsonValue::Number(JsonNumber::Float(ref t)) if t == "4.5"));
            assert_eq!(longitude.as_i64(), Some(-74));
        }
        other => panic!("unexpected call {other:?}"),
    }
}

#[test]
fn results_report_the_chat() {
    let r = tool_result(
        ReplyShape::WithChatId(9),
        Ok(ToolResponse::MessageSent { message_id: n(501) }),
    )
    .unwrap();
    assert_eq!(r.get("ok").and_then(|v| v.as_bool()), Some(true));
    assert_eq!(r.get("message_id").and_then(|v| v.as_i64()), Some(501));
    assert_eq!(r.get("chat_id").and_then(|v| v.as_i64()), Some(9));

    let r = tool_result(ReplyShape::WithChatId(9), Ok(ToolResponse::Done)).unwrap();
    assert_eq!(r.get("chat_id").and_then(|v| v.as_i64()), Some(9));

    let r = tool_result(
        ReplyShape::WithChatId(9),
        Ok(ToolResponse::Error { message: "blocked".to_string() }),
    )
    .unwrap();
    assert_eq!(r.get("ok").and_then(|v| v.as_bool()), Some(false));
    assert_eq!(str_field(&r, "error"), Some("blocked"));
    assert!(r.get("chat_id").is_none());

    let r = tool_result(ReplyShape::ReactionAck(9, 4), Ok(ToolResponse::Custom { payload: s("x") }))
        .unwrap();
    assert_eq!(r.get("message_id").and_then(|v| v.as_i64()), Some(4));

    let e = tool_result(ReplyShape::WithChatId(9), Err("HTTP 502".to_string())).unwrap_err();
    assert_eq!(e, ToolError::ExecutionFailed("HTTP 502".to_string()));
}

#[test]
fn custom_response_passes_through() {
    let r = response_to_value(ToolResponse::Custom { payload: s("raw") }, obj(vec![("chat_id", n(1))]));
    assert_eq!(r.as_str(), Some("raw"));
}

#[test]
fn merge_overwrites_and_appends() {
    let mut t = obj(vec![("ok", JsonValue::Bool(true)), ("chat_id", n(1))]);
    merge_into(&mut t, obj(vec![("chat_id", n(2)), ("extra", s("e"))]));
    assert_eq!(t.get("chat_id").and_then(|v| v.as_i64()), Some(2));
    assert_eq!(str_field(&t, "extra"), Some("e"));
    match &t {
        JsonValue::Object(entries) => assert_eq!(entries.len(), 3),
        other => panic!("object expected, got {other:?}"),
    }
    let mut not_object = s("x");
    merge_into(&mut not_object, obj(vec![("a", n(1))]));
    assert_eq!(not_object.as_str(), Some("x"));
}

#[test]
fn advertised_tools_are_the_six_routed_ones() {
    let defs = telegram_tool_defs();
    let names: Vec<&str> = defs.iter().map(|d| d.name).collect();
    assert_eq!(
        names,
        vec![
            "telegram_send_message",
            "telegram_send_reply",
            "telegram_send_reaction",
            "telegram_edit_message",
            "telegram_send_location",
            "telegram_send_media",
        ]
    );
    assert!(defs.iter().all(|d| d.name.starts_with("telegram_") && !d.description.is_empty()));
    assert_eq!(defs[1].required, vec!["chat_id", "reply_to_message_id", "text"]);
    assert_eq!(defs[5].required, vec!["chat_id", "kind"]);
    // Each advertised tool is routed: with no bot it is unavailable, not
    // unknown; with a bot and no arguments its first required one is named.
    for d in &defs {
        let r = dispatch_telegram_tool(
            true,
            ToolInvocation { tool_name: d.name.to_string(), args: JsonValue::Object(vec![]) },
        );
        match r {
            Err(ToolError::ArgumentInvalid(m)) => assert!(m.contains(d.required[0]), "{m}"),
            other => panic!("{}: expected an invalid argument, got {other:?}", d.name),
        }
    }
}
