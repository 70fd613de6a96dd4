//! `tool.invoke` routing for the six `telegram_*` tools.
//!
//! Routing a call is split in two: [`dispatch_telegram_tool`] checks the
//! arguments and decides which Bot API call to make ([`ToolPlan`]); once
//! that call has been made, [`tool_result`] turns its outcome into the
//! JSON-RPC `result` (or error).

use vstd::prelude::*;
use crate::json::{insert, insert_all, json_i64, lemma_lookup_insert, lemma_lookup_insert_other, lookup, Json, JsonValue};
use crate::auto_discovery::{ack, failure, obj1, obj2, obj3, object1, object2, object3};
use crate::text::{
    chars_of, concat, concat3, debug_quoted, debug_text, int_error_message, int_error_text,
    parse_i64, parse_i64_chars, str_eq,
};

verus! {

broadcast use vstd::string::group_string_axioms;

/// Why a `tool.invoke` failed, by the JSON-RPC error band the host
/// decodes (`-33401` not found, `-33402` argument invalid, `-33403`
/// execution failed, `-33404` unavailable).
#[derive(Debug, PartialEq)]
pub enum ToolError {
    NotFound(String),
    ArgumentInvalid(String),
    ExecutionFailed(String),
    Unavailable(String),
}

pub enum ToolErrorView {
    NotFound(Seq<char>),
    ArgumentInvalid(Seq<char>),
    ExecutionFailed(Seq<char>),
    Unavailable(Seq<char>),
}

impl View for ToolError {
    type V = ToolErrorView;

    open spec fn view(&self) -> ToolErrorView {
        match self {
            ToolError::NotFound(m) => ToolErrorView::NotFound(m@),
            ToolError::ArgumentInvalid(m) => ToolErrorView::ArgumentInvalid(m@),
            ToolError::ExecutionFailed(m) => ToolErrorView::ExecutionFailed(m@),
            ToolError::Unavailable(m) => ToolErrorView::Unavailable(m@),
        }
    }
}

/// A decoded `tool.invoke` request: the tool's name and its arguments.
pub struct ToolInvocation {
    pub tool_name: String,
    pub args: JsonValue,
}

/// The Bot API call a tool makes.
#[derive(Debug)]
pub enum BotCall {
    /// Send `text` to the chat, split into Telegram-sized chunks.
    SendText { chat_id: i64, text: String },
    /// A custom bot command with its JSON payload.
    Custom { name: String, payload: JsonValue },
    /// `send_location`; the coordinates are JSON numbers, sent as `f64`.
    SendLocation { chat_id: i64, latitude: JsonValue, longitude: JsonValue },
}

pub enum BotCallView {
    SendText(i64, Seq<char>),
    Custom(Seq<char>, Json),
    SendLocation(i64, Json, Json),
}

impl View for BotCall {
    type V = BotCallView;

    open spec fn view(&self) -> BotCallView {
        match self {
            BotCall::SendText { chat_id, text } => BotCallView::SendText(*chat_id, text@),
            BotCall::Custom { name, payload } => BotCallView::Custom(name@, payload@),
            BotCall::SendLocation { chat_id, latitude, longitude } => BotCallView::SendLocation(
                *chat_id,
                latitude@,
                longitude@,
            ),
        }
    }
}

/// How the result of a tool is shaped from the bot's response.
#[derive(Clone, Copy, Debug, PartialEq, Eq, Structural)]
pub enum ReplyShape {
    /// The bot's response, with `chat_id` added.
    WithChatId(i64),
    /// `{"ok": true, "chat_id", "message_id"}` whatever the bot answered.
    ReactionAck(i64, i64),
}

/// What a tool call does: the Bot API call and the shape of its result.
#[derive(Debug)]
pub struct ToolPlan {
    pub call: BotCall,
    pub reply: ReplyShape,
}

/// The bot's response to a call.
#[derive(Debug)]
pub enum ToolResponse {
    MessageSent { message_id: JsonValue },
    Done,
    Error { message: String },
    Custom { payload: JsonValue },
}

pub enum ToolResponseView {
    MessageSent(Json),
    Done,
    Error(Seq<char>),
    Custom(Json),
}

impl View for ToolResponse {
    type V = ToolResponseView;

    open spec fn view(&self) -> ToolResponseView {
        match self {
            ToolResponse::MessageSent { message_id } => ToolResponseView::MessageSent(message_id@),
            ToolResponse::Done => ToolResponseView::Done,
            ToolResponse::Error { message } => ToolResponseView::Error(message@),
            ToolResponse::Custom { payload } => ToolResponseView::Custom(payload@),
        }
    }
}

/// An integer argument: a JSON integer that fits in `i64`, or a string
/// that parses as one.
pub open spec fn int_field(args: Json, field: Seq<char>) -> Result<i64, ToolErrorView> {
    match args.i64_at(field) {
        Some(i) => Ok(i),
        None => match args.str_at(field) {
            Some(s) => match parse_i64(s) {
                Ok(v) => Ok(v),
                Err(k) => Err(
                    ToolErrorView::ArgumentInvalid(field + " not parseable: "@ + int_error_text(k)),
                ),
            },
            None => Err(
                ToolErrorView::ArgumentInvalid(
                    "`"@ + field + "` is required (integer or numeric string)"@,
                ),
            ),
        },
    }
}

/// A required string argument.
pub open spec fn str_field(args: Json, field: Seq<char>) -> Result<Seq<char>, ToolErrorView> {
    match args.str_at(field) {
        Some(s) => Ok(s),
        None => Err(ToolErrorView::ArgumentInvalid("`"@ + field + "` is required (string)"@)),
    }
}

/// A required numeric argument.
pub open spec fn number_field(args: Json, field: Seq<char>) -> Result<Json, ToolErrorView> {
    match args.get(field) {
        Some(v) => if v is Number {
            Ok(v)
        } else {
            Err(ToolErrorView::ArgumentInvalid("`"@ + field + "` is required (number)"@))
        },
        None => Err(ToolErrorView::ArgumentInvalid("`"@ + field + "` is required (number)"@)),
    }
}

/// The custom command behind each media kind.
pub open spec fn media_command(kind: Seq<char>) -> Option<Seq<char>> {
    if kind == "photo"@ {
        Some("send_photo"@)
    } else if kind == "audio"@ {
        Some("send_audio"@)
    } else if kind == "voice"@ {
        Some("send_voice"@)
    } else if kind == "video"@ {
        Some("send_video"@)
    } else if kind == "document"@ {
        Some("send_document"@)
    } else if kind == "animation"@ {
        Some("send_animation"@)
    } else {
        None
    }
}

pub open spec fn not_started_text() -> Seq<char> {
    "telegram subprocess plugin not started (no bot client)"@
}

pub type PlanView = Result<(BotCallView, ReplyShape), ToolErrorView>;

/// `telegram_send_message`: `chat_id`, `text`.
pub open spec fn send_message_plan(args: Json) -> PlanView {
    match (int_field(args, "chat_id"@), str_field(args, "text"@)) {
        (Err(e), _) => Err(e),
        (Ok(_), Err(e)) => Err(e),
        (Ok(c), Ok(t)) => Ok((BotCallView::SendText(c, t), ReplyShape::WithChatId(c))),
    }
}

/// `telegram_send_reply`: `chat_id`, `reply_to_message_id`, `text`.
pub open spec fn send_reply_plan(args: Json) -> PlanView {
    match (
        int_field(args, "chat_id"@),
        int_field(args, "reply_to_message_id"@),
        str_field(args, "text"@),
    ) {
        (Err(e), _, _) => Err(e),
        (Ok(_), Err(e), _) => Err(e),
        (Ok(_), Ok(_), Err(e)) => Err(e),
        (Ok(c), Ok(r), Ok(t)) => Ok(
            (
                BotCallView::Custom(
                    "reply"@,
                    obj3("chat_id"@, json_i64(c), "msg_id"@, json_i64(r), "text"@, Json::Str(t)),
                ),
                ReplyShape::WithChatId(c),
            ),
        ),
    }
}

/// `telegram_send_reaction`: `chat_id`, `message_id`, `emoji`.
pub open spec fn send_reaction_plan(args: Json) -> PlanView {
    match (
        int_field(args, "chat_id"@),
        int_field(args, "message_id"@),
        str_field(args, "emoji"@),
    ) {
        (Err(e), _, _) => Err(e),
        (Ok(_), Err(e), _) => Err(e),
        (Ok(_), Ok(_), Err(e)) => Err(e),
        (Ok(c), Ok(m), Ok(emoji)) => Ok(
            (
                BotCallView::Custom(
                    "reaction"@,
                    obj3(
                        "chat_id"@,
                        json_i64(c),
                        "message_id"@,
                        json_i64(m),
                        "emoji"@,
                        Json::Str(emoji),
                    ),
                ),
                ReplyShape::ReactionAck(c, m),
            ),
        ),
    }
}

/// The `parse_mode` argument as sent on: its string, or `null`.
pub open spec fn parse_mode_value(args: Json) -> Json {
    match args.str_at("parse_mode"@) {
        Some(p) => Json::Str(p),
        None => Json::Null,
    }
}

/// `telegram_edit_message`: `chat_id`, `message_id`, `text`, optional
/// `parse_mode`.
pub open spec fn edit_message_plan(args: Json) -> PlanView {
    match (
        int_field(args, "chat_id"@),
        int_field(args, "message_id"@),
        str_field(args, "text"@),
    ) {
        (Err(e), _, _) => Err(e),
        (Ok(_), Err(e), _) => Err(e),
        (Ok(_), Ok(_), Err(e)) => Err(e),
        (Ok(c), Ok(m), Ok(t)) => Ok(
            (
                BotCallView::Custom(
                    "edit_message"@,
                    Json::Obj(
                        seq![
                            ("chat_id"@, json_i64(c)),
                            ("message_id"@, json_i64(m)),
                            ("text"@, Json::Str(t)),
                            ("parse_mode"@, parse_mode_value(args)),
                        ],
                    ),
                ),
                ReplyShape::WithChatId(c),
            ),
        ),
    }
}

/// `telegram_send_location`: `chat_id`, `latitude`, `longitude`.
pub open spec fn send_location_plan(args: Json) -> PlanView {
    match (
        int_field(args, "chat_id"@),
        number_field(args, "latitude"@),
        number_field(args, "longitude"@),
    ) {
        (Err(e), _, _) => Err(e),
        (Ok(_), Err(e), _) => Err(e),
        (Ok(_), Ok(_), Err(e)) => Err(e),
        (Ok(c), Ok(lat), Ok(lon)) => Ok(
            (BotCallView::SendLocation(c, lat, lon), ReplyShape::WithChatId(c)),
        ),
    }
}

/// `telegram_send_media`: `chat_id`, `kind`; the arguments themselves,
/// with `chat_id` as an integer, are the payload.
pub open spec fn send_media_plan(args: Json) -> PlanView {
    match (int_field(args, "chat_id"@), str_field(args, "kind"@)) {
        (Err(e), _) => Err(e),
        (Ok(_), Err(e)) => Err(e),
        (Ok(c), Ok(kind)) => match media_command(kind) {
            Some(name) => Ok(
                (
                    BotCallView::Custom(
                        name,
                        Json::Obj(insert(args.entries(), "chat_id"@, json_i64(c))),
                    ),
                    ReplyShape::WithChatId(c),
                ),
            ),
            None => Err(ToolErrorView::ArgumentInvalid("unknown media kind: "@ + debug_text(kind))),
        },
    }
}

/// The plan for `tool` with `args`, once a bot client is available.
pub open spec fn tool_plan(tool: Seq<char>, args: Json) -> PlanView {
    if tool == "telegram_send_message"@ {
        send_message_plan(args)
    } else if tool == "telegram_send_reply"@ {
        send_reply_plan(args)
    } else if tool == "telegram_send_reaction"@ {
        send_reaction_plan(args)
    } else if tool == "telegram_edit_message"@ {
        edit_message_plan(args)
    } else if tool == "telegram_send_location"@ {
        send_location_plan(args)
    } else if tool == "telegram_send_media"@ {
        send_media_plan(args)
    } else {
        Err(ToolErrorView::NotFound(tool))
    }
}

pub open spec fn plan_view(r: Result<ToolPlan, ToolError>) -> Result<(BotCallView, ReplyShape), ToolErrorView> {
    match r {
        Ok(p) => Ok((p.call@, p.reply)),
        Err(e) => Err(e@),
    }
}

/// Decides what a `tool.invoke` does: no bot client means the plugin is
/// unavailable; otherwise the arguments are checked for the named tool
/// and the Bot API call is chosen. An unknown tool is not found.
pub fn dispatch_telegram_tool(bot_started: bool, invocation: ToolInvocation) -> (r: Result<
    ToolPlan,
    ToolError,
>)
    ensures
        !bot_started ==> plan_view(r) == Err::<(BotCallView, ReplyShape), ToolErrorView>(
            ToolErrorView::Unavailable(not_started_text()),
        ),
        bot_started ==> plan_view(r) == tool_plan(invocation.tool_name@, invocation.args@),
{
    if !bot_started {
        return Err(
            ToolError::Unavailable(
                "telegram subprocess plugin not started (no bot client)".to_string(),
            ),
        );
    }
    let ToolInvocation { tool_name, args } = invocation;
    let tool = tool_name.as_str();
    if str_eq(tool, "telegram_send_message") {
        let chat_id = parse_chat_id(&args)?;
        let text = require_str(&args, "text")?;
        Ok(
            ToolPlan {
                call: BotCall::SendText { chat_id, text: text.to_string() },
                reply: ReplyShape::WithChatId(chat_id),
            },
        )
    } else if str_eq(tool, "telegram_send_reply") {
        let chat_id = parse_chat_id(&args)?;
        let reply_to = parse_int_field(&args, "reply_to_message_id")?;
        let text = require_str(&args, "text")?;
        let payload = object3(
            "chat_id",
            JsonValue::from_i64(chat_id),
            "msg_id",
            JsonValue::from_i64(reply_to),
            "text",
            JsonValue::from_str(text),
        );
        Ok(
            ToolPlan {
                call: BotCall::Custom { name: "reply".to_string(), payload },
                reply: ReplyShape::WithChatId(chat_id),
            },
        )
    } else if str_eq(tool, "telegram_send_reaction") {
        let chat_id = parse_chat_id(&args)?;
        let message_id = parse_int_field(&args, "message_id")?;
        let emoji = require_str(&args, "emoji")?;
        let payload = object3(
            "chat_id",
            JsonValue::from_i64(chat_id),
            "message_id",
            JsonValue::from_i64(message_id),
            "emoji",
            JsonValue::from_str(emoji),
        );
        Ok(
            ToolPlan {
                call: BotCall::Custom { name: "reaction".to_string(), payload },
                reply: ReplyShape::ReactionAck(chat_id, message_id),
            },
        )
    } else if str_eq(tool, "telegram_edit_message") {
        let chat_id = parse_chat_id(&args)?;
        let message_id = parse_int_field(&args, "message_id")?;
        let text = require_str(&args, "text")?;
        let parse_mode = match args.str_at("parse_mode") {
            Some(p) => JsonValue::from_str(p),
            None => JsonValue::Null,
        };
        let mut payload = object3(
            "chat_id",
            JsonValue::from_i64(chat_id),
            "message_id",
            JsonValue::from_i64(message_id),
            "text",
            JsonValue::from_str(text),
        );
        let ghost pm = parse_mode@;
        payload.push_entry("parse_mode", parse_mode);
        assert(payload@->Obj_0 =~= seq![
            ("chat_id"@, json_i64(chat_id)),
            ("message_id"@, json_i64(message_id)),
            ("text"@, Json::Str(text@)),
            ("parse_mode"@, pm),
        ]);
        let plan = ToolPlan {
            call: BotCall::Custom { name: "edit_message".to_string(), payload },
            reply: ReplyShape::WithChatId(chat_id),
        };
        assert(pm == parse_mode_value(args@));
        assert(plan_view(Ok(plan)) == tool_plan(tool@, args@));
        Ok(plan)
    } else if str_eq(tool, "telegram_send_location") {
        let chat_id = parse_chat_id(&args)?;
        require_number(&args, "latitude")?;
        require_number(&args, "longitude")?;
        let (latitude, longitude) = take_coordinates(args);
        Ok(
            ToolPlan {
                call: BotCall::SendLocation { chat_id, latitude, longitude },
                reply: ReplyShape::WithChatId(chat_id),
            },
        )
    } else if str_eq(tool, "telegram_send_media") {
        let chat_id = parse_chat_id(&args)?;
        let kind = require_str(&args, "kind")?;
        let name = match media_command_name(kind) {
            Some(name) => name,
            None => {
                let shown = debug_quoted(kind);
                return Err(
                    ToolError::ArgumentInvalid(concat("unknown media kind: ", shown.as_str())),
                );
            },
        };
        let mut payload = args;
        payload.insert("chat_id".to_string(), JsonValue::from_i64(chat_id));
        let plan = ToolPlan {
            call: BotCall::Custom { name: name.to_string(), payload },
            reply: ReplyShape::WithChatId(chat_id),
        };
        assert(plan_view(Ok(plan)) == tool_plan(tool@, args@));
        Ok(plan)
    } else {
        Err(ToolError::NotFound(tool_name))
    }
}

/// The two coordinates, moved out of the arguments.
fn take_coordinates(args: JsonValue) -> (r: (JsonValue, JsonValue))
    requires
        args@.get("latitude"@) is Some,
        args@.get("latitude"@)->0 is Number,
        args@.get("longitude"@) is Some,
        args@.get("longitude"@)->0 is Number,
    ensures
        args@.get("latitude"@) == Some(r.0@),
        args@.get("longitude"@) == Some(r.1@),
{
    let latitude = copy_number(args.get("latitude"));
    let longitude = copy_number(args.get("longitude"));
    (latitude, longitude)
}

/// A copy of a scalar JSON value (a number here).
fn copy_number(v: Option<&JsonValue>) -> (r: JsonValue)
    requires
        v is Some,
    ensures
        v->0@ is Number ==> r@ == v->0@,
{
    match v {
        Some(JsonValue::Number(n)) => JsonValue::Number(
            match n {
                crate::json::JsonNumber::PosInt(x) => crate::json::JsonNumber::PosInt(*x),
                crate::json::JsonNumber::NegInt(x) => crate::json::JsonNumber::NegInt(*x),
                crate::json::JsonNumber::Float(t) => crate::json::JsonNumber::Float(t.clone()),
            },
        ),
        _ => JsonValue::Null,
    }
}

fn media_command_name(kind: &str) -> (r: Option<&'static str>)
    ensures
        r matches Some(n) ==> media_command(kind@) == Some(n@),
        r is None ==> media_command(kind@) is None,
{
    if str_eq(kind, "photo") {
        Some("send_photo")
    } else if str_eq(kind, "audio") {
        Some("send_audio")
    } else if str_eq(kind, "voice") {
        Some("send_voice")
    } else if str_eq(kind, "video") {
        Some("send_video")
    } else if str_eq(kind, "document") {
        Some("send_document")
    } else if str_eq(kind, "animation") {
        Some("send_animation")
    } else {
        None
    }
}

pub open spec fn int_result_view(r: Result<i64, ToolError>) -> Result<i64, ToolErrorView> {
    match r {
        Ok(i) => Ok(i),
        Err(e) => Err(e@),
    }
}

/// The `chat_id` argument: an integer or a numeric string.
pub fn parse_chat_id(args: &JsonValue) -> (r: Result<i64, ToolError>)
    ensures
        int_result_view(r) == int_field(args@, "chat_id"@),
{
    parse_int_field(args, "chat_id")
}

/// An integer argument: an integer or a numeric string.
pub fn parse_int_field(args: &JsonValue, field: &str) -> (r: Result<i64, ToolError>)
    ensures
        int_result_view(r) == int_field(args@, field@),
{
    if let Some(i) = args.i64_at(field) {
        return Ok(i);
    }
    if let Some(s) = args.str_at(field) {
        let cs = chars_of(s);
        return match parse_i64_chars(&cs) {
            Ok(v) => Ok(v),
            Err(k) => Err(
                ToolError::ArgumentInvalid(concat3(field, " not parseable: ", int_error_message(k))),
            ),
        };
    }
    Err(
        ToolError::ArgumentInvalid(
            concat3("`", field, "` is required (integer or numeric string)"),
        ),
    )
}

/// A required string argument.
pub fn require_str<'a>(args: &'a JsonValue, field: &str) -> (r: Result<&'a str, ToolError>)
    ensures
        match r {
            Ok(s) => str_field(args@, field@) == Ok::<Seq<char>, ToolErrorView>(s@),
            Err(e) => str_field(args@, field@) == Err::<Seq<char>, ToolErrorView>(e@),
        },
{
    match args.str_at(field) {
        Some(s) => Ok(s),
        None => Err(ToolError::ArgumentInvalid(concat3("`", field, "` is required (string)"))),
    }
}

/// A required numeric argument.
pub fn require_number(args: &JsonValue, field: &str) -> (r: Result<(), ToolError>)
    ensures
        match r {
            Ok(_) => number_field(args@, field@) is Ok,
            Err(e) => number_field(args@, field@) == Err::<Json, ToolErrorView>(e@),
        },
        number_field(args@, field@) is Ok ==> args@.get(field@) is Some && args@.get(
            field@,
        )->0 is Number,
{
    match args.get(field) {
        Some(v) => if v.is_number() {
            Ok(())
        } else {
            Err(ToolError::ArgumentInvalid(concat3("`", field, "` is required (number)")))
        },
        None => Err(ToolError::ArgumentInvalid(concat3("`", field, "` is required (number)"))),
    }
}

/// `target` with the entries of `extra` set in it, where both are
/// objects; `target` unchanged otherwise.
pub open spec fn merged(target: Json, extra: Json) -> Json {
    if target is Obj && extra is Obj {
        Json::Obj(insert_all(target.entries(), extra.entries()))
    } else {
        target
    }
}

/// Sets every entry of `extra` in `target`, where both are objects.
pub fn merge_into(target: &mut JsonValue, extra: JsonValue)
    ensures
        final(target)@ == merged(old(target)@, extra@),
{
    let is_object = match target {
        JsonValue::Object(_) => true,
        _ => false,
    };
    match extra {
        JsonValue::Object(mut entries) => {
            if !is_object {
                return;
            }
            let ghost all = crate::json::entries_view(entries@);
            proof {
                lemma_entries(entries);
            }
            let ghost start = target@.entries();
            let ghost n = entries@.len();
            let len0 = entries.len();
            assert(n == len0);
            assert(all.skip(0) =~= all);
            assert(all.take(0) =~= Seq::<(Seq<char>, Json)>::empty());
            let mut i: usize = 0;
            while entries.len() > 0
                invariant
                    target@ is Obj,
                    0 <= i <= n,
                    n == all.len(),
                    n <= usize::MAX,
                    entries@.len() == n - i,
                    crate::json::entries_view(entries@) == all.skip(i as int),
                    target@.entries() == insert_all(start, all.take(i as int)),
                decreases entries@.len(),
            {
                let ghost before = entries@;
                let (k, v) = entries.remove(0);
                assert(all[i as int] == (k@, v@)) by {
                    assert(all.skip(i as int)[0] == all[i as int]);
                }
                assert(entries@ =~= before.subrange(1, before.len() as int));
                assert(crate::json::entries_view(entries@) =~= crate::json::entries_view(
                    before,
                ).skip(1));
                assert(all.skip(i as int).skip(1) =~= all.skip(i + 1));
                target.insert(k, v);
                assert(all.take(i + 1).drop_last() =~= all.take(i as int));
                i = i + 1;
            }
            assert(all.take(n as int) =~= all);
        },
        _ => {},
    }
}

proof fn lemma_entries(entries: Vec<(String, JsonValue)>)
    ensures
        JsonValue::Object(entries)@.entries() == crate::json::entries_view(entries@),
{
    assert(JsonValue::Object(entries)@->Obj_0 =~= crate::json::entries_view(entries@));
}

/// The JSON result for a bot response, with `extra` merged in where the
/// response reports success.
pub open spec fn response_json(resp: ToolResponseView, extra: Json) -> Json {
    match resp {
        ToolResponseView::MessageSent(id) => merged(
            obj2("ok"@, Json::Bool(true), "message_id"@, id),
            extra,
        ),
        ToolResponseView::Done => merged(ack(), extra),
        ToolResponseView::Error(message) => failure(message),
        ToolResponseView::Custom(payload) => payload,
    }
}

/// The JSON result for a bot response.
pub fn response_to_value(resp: ToolResponse, extra: JsonValue) -> (r: JsonValue)
    ensures
        r@ == response_json(resp@, extra@),
{
    match resp {
        ToolResponse::MessageSent { message_id } => {
            let mut v = object2("ok", JsonValue::Bool(true), "message_id", message_id);
            merge_into(&mut v, extra);
            v
        },
        ToolResponse::Done => {
            let mut v = object1("ok", JsonValue::Bool(true));
            merge_into(&mut v, extra);
            v
        },
        ToolResponse::Error { message } => object2(
            "ok",
            JsonValue::Bool(false),
            "error",
            JsonValue::String(message),
        ),
        ToolResponse::Custom { payload } => payload,
    }
}

/// The outcome of a bot call: the bot's response, or the failure's text.
pub open spec fn outcome_view(o: Result<ToolResponse, String>) -> Result<ToolResponseView, Seq<char>> {
    match o {
        Ok(r) => Ok(r@),
        Err(m) => Err(m@),
    }
}

/// The tool's result once its bot call has been made.
pub open spec fn tool_result_spec(reply: ReplyShape, outcome: Result<ToolResponseView, Seq<char>>) -> Result<
    Json,
    ToolErrorView,
> {
    match outcome {
        Err(m) => Err(ToolErrorView::ExecutionFailed(m)),
        Ok(resp) => match reply {
            ReplyShape::WithChatId(c) => Ok(response_json(resp, obj1("chat_id"@, json_i64(c)))),
            ReplyShape::ReactionAck(c, m) => Ok(
                obj3("ok"@, Json::Bool(true), "chat_id"@, json_i64(c), "message_id"@, json_i64(m)),
            ),
        },
    }
}

pub open spec fn json_result_view(r: Result<JsonValue, ToolError>) -> Result<Json, ToolErrorView> {
    match r {
        Ok(v) => Ok(v@),
        Err(e) => Err(e@),
    }
}

/// Turns the outcome of a tool's bot call into the JSON-RPC result: a
/// failed call is an execution failure; a response is shaped as the
/// plan says.
pub fn tool_result(reply: ReplyShape, outcome: Result<ToolResponse, String>) -> (r: Result<
    JsonValue,
    ToolError,
>)
    ensures
        json_result_view(r) == tool_result_spec(reply, outcome_view(outcome)),
{
    match outcome {
        Err(m) => Err(ToolError::ExecutionFailed(m)),
        Ok(resp) => match reply {
            ReplyShape::WithChatId(chat_id) => Ok(
                response_to_value(resp, object1("chat_id", JsonValue::from_i64(chat_id))),
            ),
            ReplyShape::ReactionAck(chat_id, message_id) => Ok(
                object3(
                    "ok",
                    JsonValue::Bool(true),
                    "chat_id",
                    JsonValue::from_i64(chat_id),
                    "message_id",
                    JsonValue::from_i64(message_id),
                ),
            ),
        },
    }
}

/// One tool the subprocess advertises in its `initialize` reply: its
/// name, a one-sentence description, and the arguments a `tool.invoke` of
/// it must carry.
#[derive(Debug)]
pub struct ToolSpec {
    pub name: &'static str,
    pub description: &'static str,
    pub required: Vec<&'static str>,
}

pub open spec fn texts(v: Seq<&'static str>) -> Seq<Seq<char>> {
    v.map_values(|s: &'static str| s@)
}

/// The advertised tools, in order: name, description, required arguments.
pub open spec fn tool_catalogue() -> Seq<(Seq<char>, Seq<char>, Seq<Seq<char>>)> {
    seq![
        ("telegram_send_message"@, "Send a text message to a Telegram chat."@, seq!["chat_id"@, "text"@]),
        (
            "telegram_send_reply"@,
            "Reply to a message in a Telegram chat."@,
            seq!["chat_id"@, "reply_to_message_id"@, "text"@],
        ),
        (
            "telegram_send_reaction"@,
            "React to a message in a Telegram chat with an emoji."@,
            seq!["chat_id"@, "message_id"@, "emoji"@],
        ),
        (
            "telegram_edit_message"@,
            "Edit the text of a message the bot sent."@,
            seq!["chat_id"@, "message_id"@, "text"@],
        ),
        (
            "telegram_send_location"@,
            "Send a map location to a Telegram chat."@,
            seq!["chat_id"@, "latitude"@, "longitude"@],
        ),
        (
            "telegram_send_media"@,
            "Send a photo, audio, voice note, video, document or animation to a Telegram chat."@,
            seq!["chat_id"@, "kind"@],
        ),
    ]
}

pub open spec fn tool_spec_view(t: ToolSpec) -> (Seq<char>, Seq<char>, Seq<Seq<char>>) {
    (t.name@, t.description@, texts(t.required@))
}

fn tool_spec(name: &'static str, description: &'static str, required: Vec<&'static str>) -> (r: ToolSpec)
    ensures
        tool_spec_view(r) == (name@, description@, texts(required@)),
{
    ToolSpec { name, description, required }
}

fn names2(a: &'static str, b: &'static str) -> (r: Vec<&'static str>)
    ensures
        texts(r@) == seq![a@, b@],
{
    let mut r: Vec<&'static str> = Vec::new();
    r.push(a);
    r.push(b);
    assert(texts(r@) =~= seq![a@, b@]);
    r
}

fn names3(a: &'static str, b: &'static str, c: &'static str) -> (r: Vec<&'static str>)
    ensures
        texts(r@) == seq![a@, b@, c@],
{
    let mut r: Vec<&'static str> = Vec::new();
    r.push(a);
    r.push(b);
    r.push(c);
    assert(texts(r@) =~= seq![a@, b@, c@]);
    r
}

/// The tools the subprocess advertises in its `initialize` reply, one per
/// tool [`dispatch_telegram_tool`] routes.
pub fn telegram_tool_defs() -> (r: Vec<ToolSpec>)
    ensures
        r@.map_values(|t: ToolSpec| tool_spec_view(t)) == tool_catalogue(),
{
    let mut r: Vec<ToolSpec> = Vec::new();
    r.push(
        tool_spec(
            "telegram_send_message",
            "Send a text message to a Telegram chat.",
            names2("chat_id", "text"),
        ),
    );
    r.push(
        tool_spec(
            "telegram_send_reply",
            "Reply to a message in a Telegram chat.",
            names3("chat_id", "reply_to_message_id", "text"),
        ),
    );
    r.push(
        tool_spec(
            "telegram_send_reaction",
            "React to a message in a Telegram chat with an emoji.",
            names3("chat_id", "message_id", "emoji"),
        ),
    );
    r.push(
        tool_spec(
            "telegram_edit_message",
            "Edit the text of a message the bot sent.",
            names3("chat_id", "message_id", "text"),
        ),
    );
    r.push(
        tool_spec(
            "telegram_send_location",
            "Send a map location to a Telegram chat.",
            names3("chat_id", "latitude", "longitude"),
        ),
    );
    r.push(
        tool_spec(
            "telegram_send_media",
            "Send a photo, audio, voice note, video, document or animation to a Telegram chat.",
            names2("chat_id", "kind"),
        ),
    );
    assert(r@.map_values(|t: ToolSpec| tool_spec_view(t)) =~= tool_catalogue());
    r
}

/// The advertised tools are the routed ones: no advertised tool is
/// unknown to [`dispatch_telegram_tool`], and a call that leaves out an
/// argument the catalogue marks required is refused as an invalid
/// argument.
pub proof fn lemma_catalogue_matches_dispatch(i: int, j: int, args: Json)
    requires
        0 <= i < tool_catalogue().len(),
    ensures
        !(tool_plan(tool_catalogue()[i].0, args) matches Err(ToolErrorView::NotFound(_))),
        0 <= j < tool_catalogue()[i].2.len() && args.get(tool_catalogue()[i].2[j]) is None
            ==> tool_plan(tool_catalogue()[i].0, args) matches Err(ToolErrorView::ArgumentInvalid(_)),
{
    reveal_strlit("telegram_send_message");
    reveal_strlit("telegram_send_reply");
    reveal_strlit("telegram_send_reaction");
    reveal_strlit("telegram_edit_message");
    reveal_strlit("telegram_send_location");
    reveal_strlit("telegram_send_media");
    let name = tool_catalogue()[i].0;
    let message = "telegram_send_message"@;
    let reply = "telegram_send_reply"@;
    let reaction = "telegram_send_reaction"@;
    let edit = "telegram_edit_message"@;
    let location = "telegram_send_location"@;
    let media = "telegram_send_media"@;
    assert(message.len() == 21 && reply.len() == 19 && reaction.len() == 22);
    assert(edit.len() == 21 && location.len() == 22 && media.len() == 19);
    if i == 0 {
        assert(name == message);
    } else if i == 1 {
        assert(name == reply);
        assert(name != message);
    } else if i == 2 {
        assert(name == reaction);
        assert(name != message && name != reply);
    } else if i == 3 {
        assert(name == edit);
        assert(name[9] != message[9]);
        assert(name != message && name != reply && name != reaction);
    } else if i == 4 {
        assert(name == location);
        assert(name[14] != reaction[14]);
        assert(name != message && name != reply && name != reaction && name != edit);
    } else {
        assert(name == media);
        assert(name[14] != reply[14]);
        assert(name != message && name != reply && name != reaction && name != edit
            && name != location);
    }
}

/// An edit passes the caller's arguments on to the bot: the payload
/// carries the chat, message and text the arguments give, and
/// `parse_mode` is the caller's string where the argument is one, `null`
/// where it is absent or not a string.
pub proof fn lemma_edit_message_payload(args: Json, c: i64, m: i64, t: Seq<char>)
    requires
        args.i64_at("chat_id"@) == Some(c),
        args.i64_at("message_id"@) == Some(m),
        args.str_at("text"@) == Some(t),
    ensures
        tool_plan("telegram_edit_message"@, args) matches Ok((BotCallView::Custom(name, payload), shape))
            && name == "edit_message"@ && shape == ReplyShape::WithChatId(c)
            && payload.get("chat_id"@) == Some(json_i64(c))
            && payload.get("message_id"@) == Some(json_i64(m))
            && payload.get("text"@) == Some(Json::Str(t))
            && payload.get("parse_mode"@) == Some(
                match args.str_at("parse_mode"@) {
                    Some(p) => Json::Str(p),
                    None => Json::Null,
                },
            ),
{
    reveal_strlit("telegram_edit_message");
    reveal_strlit("telegram_send_message");
    reveal_strlit("telegram_send_reply");
    reveal_strlit("telegram_send_reaction");
    reveal_strlit("chat_id");
    reveal_strlit("message_id");
    reveal_strlit("text");
    reveal_strlit("parse_mode");
    let edit = "telegram_edit_message"@;
    assert(edit[9] != "telegram_send_message"@[9]);
    assert(edit != "telegram_send_message"@);
    assert(edit.len() != "telegram_send_reply"@.len());
    assert(edit.len() != "telegram_send_reaction"@.len());
    assert(int_field(args, "chat_id"@) == Ok::<i64, ToolErrorView>(c));
    assert(int_field(args, "message_id"@) == Ok::<i64, ToolErrorView>(m));
    assert(str_field(args, "text"@) == Ok::<Seq<char>, ToolErrorView>(t));
    let e = seq![
        ("chat_id"@, json_i64(c)),
        ("message_id"@, json_i64(m)),
        ("text"@, Json::Str(t)),
        ("parse_mode"@, parse_mode_value(args)),
    ];
    assert("chat_id"@.len() != "message_id"@.len());
    assert("chat_id"@.len() != "text"@.len());
    assert("chat_id"@.len() != "parse_mode"@.len());
    assert("message_id"@.len() != "text"@.len());
    assert("message_id"@[0] != "parse_mode"@[0]);
    assert("text"@.len() != "parse_mode"@.len());
    reveal_with_fuel(lookup, 5);
    assert(e.drop_first().drop_first().drop_first()[0] == ("parse_mode"@, parse_mode_value(args)));
    assert(lookup(e, "parse_mode"@) == Some(parse_mode_value(args)));
    assert(lookup(e, "text"@) == Some(Json::Str(t)));
    assert(lookup(e, "message_id"@) == Some(json_i64(m)));
}

/// A bot call that went through is reported as a success: `"ok": true`.
/// A reaction answers with its chat and message ids whatever the bot
/// said; a sent message carries its id and the chat's.
pub proof fn lemma_successful_call_reports_ok(reply: ReplyShape, resp: ToolResponseView)
    requires
        reply is ReactionAck || resp is MessageSent || resp is Done,
    ensures
        tool_result_spec(reply, Ok(resp)) matches Ok(j) && j.get("ok"@) == Some(Json::Bool(true)),
        reply matches ReplyShape::ReactionAck(c, m) ==> tool_result_spec(reply, Ok(resp)) == Ok::<
            Json,
            ToolErrorView,
        >(Json::Obj(seq![("ok"@, Json::Bool(true)), ("chat_id"@, json_i64(c)), ("message_id"@, json_i64(m))])),
        reply matches ReplyShape::WithChatId(c) ==> tool_result_spec(reply, Ok(resp)) matches Ok(j)
            && j.get("chat_id"@) == Some(json_i64(c)),
        resp matches ToolResponseView::MessageSent(id) ==> (reply is WithChatId ==> (tool_result_spec(
            reply,
            Ok(resp),
        ) matches Ok(j) && j.get("message_id"@) == Some(id))),
{
    reveal_strlit("ok");
    reveal_strlit("chat_id");
    reveal_strlit("message_id");
    assert("ok"@.len() != "chat_id"@.len());
    assert("message_id"@.len() != "chat_id"@.len());
    match reply {
        ReplyShape::ReactionAck(c, m) => {
            reveal_with_fuel(lookup, 2);
        },
        ReplyShape::WithChatId(c) => {
            let extra = obj1("chat_id"@, json_i64(c));
            let target = match resp {
                ToolResponseView::MessageSent(id) => obj2("ok"@, Json::Bool(true), "message_id"@, id),
                _ => ack(),
            };
            assert(extra.entries().drop_last() =~= Seq::<(Seq<char>, Json)>::empty());
            assert(insert_all(target.entries(), Seq::<(Seq<char>, Json)>::empty()) == target.entries());
            assert(insert_all(target.entries(), extra.entries()) == insert(
                target.entries(),
                "chat_id"@,
                json_i64(c),
            ));
            lemma_lookup_insert(target.entries(), "chat_id"@, json_i64(c));
            lemma_lookup_insert_other(target.entries(), "chat_id"@, json_i64(c), "ok"@);
            lemma_lookup_insert_other(target.entries(), "chat_id"@, json_i64(c), "message_id"@);
            reveal_with_fuel(lookup, 3);
        },
    }
}

/// A failed bot call is an execution failure carrying the failure's text,
/// whatever the tool; a bot that answers with an error is reported as
/// `"ok": false` with its message (reactions aside, which ignore the
/// answer).
pub proof fn lemma_failed_call_reports_failure(reply: ReplyShape, m: Seq<char>, c: i64)
    ensures
        tool_result_spec(reply, Err(m)) == Err::<Json, ToolErrorView>(ToolErrorView::ExecutionFailed(m)),
        tool_result_spec(ReplyShape::WithChatId(c), Ok(ToolResponseView::Error(m))) == Ok::<
            Json,
            ToolErrorView,
        >(Json::Obj(seq![("ok"@, Json::Bool(false)), ("error"@, Json::Str(m))])),
{
}

proof fn lemma_tool_names_distinct()
    ensures
        "telegram_send_message"@ != "telegram_send_reply"@,
        "telegram_send_message"@ != "telegram_send_reaction"@,
        "telegram_send_message"@ != "telegram_edit_message"@,
        "telegram_send_message"@ != "telegram_send_location"@,
        "telegram_send_message"@ != "telegram_send_media"@,
        "telegram_send_reply"@ != "telegram_send_reaction"@,
        "telegram_send_reply"@ != "telegram_edit_message"@,
        "telegram_send_reply"@ != "telegram_send_location"@,
        "telegram_send_reply"@ != "telegram_send_media"@,
        "telegram_send_reaction"@ != "telegram_edit_message"@,
        "telegram_send_reaction"@ != "telegram_send_location"@,
        "telegram_send_reaction"@ != "telegram_send_media"@,
        "telegram_edit_message"@ != "telegram_send_location"@,
        "telegram_edit_message"@ != "telegram_send_media"@,
        "telegram_send_location"@ != "telegram_send_media"@,
{
    reveal_strlit("telegram_send_message");
    reveal_strlit("telegram_send_reply");
    reveal_strlit("telegram_send_reaction");
    reveal_strlit("telegram_edit_message");
    reveal_strlit("telegram_send_location");
    reveal_strlit("telegram_send_media");
    assert("telegram_send_message"@.len() == 21 && "telegram_send_reply"@.len() == 19);
    assert("telegram_send_reaction"@.len() == 22 && "telegram_edit_message"@.len() == 21);
    assert("telegram_send_location"@.len() == 22 && "telegram_send_media"@.len() == 19);
    assert("telegram_send_message"@[9] != "telegram_edit_message"@[9]);
    assert("telegram_send_reaction"@[14] != "telegram_send_location"@[14]);
    assert("telegram_send_reply"@[14] != "telegram_send_media"@[14]);
}

/// `telegram_send_message` sends the text to the chat the arguments name.
pub proof fn lemma_send_message_plan(args: Json, c: i64, t: Seq<char>)
    requires
        args.i64_at("chat_id"@) == Some(c),
        args.str_at("text"@) == Some(t),
    ensures
        tool_plan("telegram_send_message"@, args) == Ok::<(BotCallView, ReplyShape), ToolErrorView>(
            (BotCallView::SendText(c, t), ReplyShape::WithChatId(c)),
        ),
{
}

/// `telegram_send_reply` answers the given message in the given chat:
/// the bot's `reply` command with the chat, the message to answer
/// (`msg_id`) and the text.
pub proof fn lemma_send_reply_plan(args: Json, c: i64, m: i64, t: Seq<char>)
    requires
        args.i64_at("chat_id"@) == Some(c),
        args.i64_at("reply_to_message_id"@) == Some(m),
        args.str_at("text"@) == Some(t),
    ensures
        tool_plan("telegram_send_reply"@, args) == Ok::<(BotCallView, ReplyShape), ToolErrorView>(
            (
                BotCallView::Custom(
                    "reply"@,
                    Json::Obj(seq![("chat_id"@, json_i64(c)), ("msg_id"@, json_i64(m)), ("text"@, Json::Str(t))]),
                ),
                ReplyShape::WithChatId(c),
            ),
        ),
{
    lemma_tool_names_distinct();
}

/// `telegram_send_reaction` puts the emoji on the given message, and the
/// result acknowledges that chat and message.
pub proof fn lemma_send_reaction_plan(args: Json, c: i64, m: i64, e: Seq<char>)
    requires
        args.i64_at("chat_id"@) == Some(c),
        args.i64_at("message_id"@) == Some(m),
        args.str_at("emoji"@) == Some(e),
    ensures
        tool_plan("telegram_send_reaction"@, args) == Ok::<(BotCallView, ReplyShape), ToolErrorView>(
            (
                BotCallView::Custom(
                    "reaction"@,
                    Json::Obj(seq![("chat_id"@, json_i64(c)), ("message_id"@, json_i64(m)), ("emoji"@, Json::Str(e))]),
                ),
                ReplyShape::ReactionAck(c, m),
            ),
        ),
{
    lemma_tool_names_distinct();
}

/// `telegram_send_location` sends the caller's two coordinates, as given,
/// to the chat; a coordinate that is missing or not a number is refused.
pub proof fn lemma_send_location_plan(args: Json, c: i64)
    requires
        args.i64_at("chat_id"@) == Some(c),
    ensures
        (args.get("latitude"@) matches Some(lat) && lat is Number) && (args.get("longitude"@) matches Some(
            lon,
        ) && lon is Number) ==> tool_plan("telegram_send_location"@, args) == Ok::<
            (BotCallView, ReplyShape),
            ToolErrorView,
        >(
            (
                BotCallView::SendLocation(c, args.get("latitude"@)->0, args.get("longitude"@)->0),
                ReplyShape::WithChatId(c),
            ),
        ),
        !(args.get("latitude"@) matches Some(lat) && lat is Number) ==> tool_plan(
            "telegram_send_location"@,
            args,
        ) == Err::<(BotCallView, ReplyShape), ToolErrorView>(
            ToolErrorView::ArgumentInvalid("`latitude` is required (number)"@),
        ),
{
    lemma_tool_names_distinct();
    reveal_strlit("`");
    reveal_strlit("latitude");
    reveal_strlit("` is required (number)");
    reveal_strlit("`latitude` is required (number)");
    assert("`"@ + "latitude"@ + "` is required (number)"@ =~= "`latitude` is required (number)"@);
}

/// Each media kind goes to its own bot command; any other kind is refused.
pub proof fn lemma_send_media_kinds(args: Json, c: i64, kind: Seq<char>)
    requires
        args.i64_at("chat_id"@) == Some(c),
        args.str_at("kind"@) == Some(kind),
    ensures
        tool_plan("telegram_send_media"@, args) matches Ok((BotCallView::Custom(name, _), shape)) ==> shape
            == ReplyShape::WithChatId(c) && (
        (kind == "photo"@ && name == "send_photo"@)
            || (kind == "audio"@ && name == "send_audio"@)
            || (kind == "voice"@ && name == "send_voice"@)
            || (kind == "video"@ && name == "send_video"@)
            || (kind == "document"@ && name == "send_document"@)
            || (kind == "animation"@ && name == "send_animation"@)),
        (kind == "photo"@ || kind == "audio"@ || kind == "voice"@ || kind == "video"@ || kind == "document"@
            || kind == "animation"@) ==> tool_plan("telegram_send_media"@, args) is Ok,
        !(kind == "photo"@ || kind == "audio"@ || kind == "voice"@ || kind == "video"@ || kind
            == "document"@ || kind == "animation"@) ==> tool_plan("telegram_send_media"@, args) == Err::<
            (BotCallView, ReplyShape),
            ToolErrorView,
        >(ToolErrorView::ArgumentInvalid("unknown media kind: "@ + debug_text(kind))),
{
    lemma_tool_names_distinct();
}

/// An integer argument may come as a JSON integer or as a string that
/// parses as one; a missing one is refused, naming it.
pub proof fn lemma_int_argument(args: Json, field: Seq<char>, text: Seq<char>)
    ensures
        args.get(field) == Some(Json::Str(text)) && parse_i64(text) is Ok ==> int_field(args, field)
            == Ok::<i64, ToolErrorView>(parse_i64(text)->Ok_0),
        args.get(field) is None ==> int_field(args, field) == Err::<i64, ToolErrorView>(
            ToolErrorView::ArgumentInvalid("`"@ + field + "` is required (integer or numeric string)"@),
        ),
{
}

/// A tool that is not one of the six is not found, and the error names
/// it; without a started bot every call is unavailable.
pub proof fn lemma_unknown_tool(tool: Seq<char>, args: Json)
    ensures
        tool != "telegram_send_message"@ && tool != "telegram_send_reply"@ && tool
            != "telegram_send_reaction"@ && tool != "telegram_edit_message"@ && tool
            != "telegram_send_location"@ && tool != "telegram_send_media"@ ==> tool_plan(tool, args)
            == Err::<(BotCallView, ReplyShape), ToolErrorView>(ToolErrorView::NotFound(tool)),
        not_started_text() == "telegram subprocess plugin not started (no bot client)"@,
{
}

/// Merging an entry into an object sets that key to the entry's value
/// (overwriting or adding it) and leaves every other key as it was;
/// merging into anything but an object changes nothing.
pub proof fn lemma_merge_sets_key(target: Json, k: Seq<char>, v: Json, other: Seq<char>, extra: Json)
    ensures
        target is Obj ==> merged(target, Json::Obj(seq![(k, v)])).get(k) == Some(v),
        target is Obj && other != k ==> merged(target, Json::Obj(seq![(k, v)])).get(other) == target.get(
            other,
        ),
        !(target is Obj) ==> merged(target, extra) == target,
{
    let e = seq![(k, v)];
    assert(e.drop_last() =~= Seq::<(Seq<char>, Json)>::empty());
    assert(insert_all(target.entries(), Seq::<(Seq<char>, Json)>::empty()) == target.entries());
    assert(insert_all(target.entries(), e) == insert(target.entries(), k, v));
    lemma_lookup_insert(target.entries(), k, v);
    if other != k {
        lemma_lookup_insert_other(target.entries(), k, v, other);
    }
}

/// A tool result that reports the bot's success carries the id of the
/// chat the call went to.
pub proof fn lemma_result_reports_chat(chat_id: i64, resp: ToolResponseView)
    requires
        resp is MessageSent || resp is Done,
    ensures
        tool_result_spec(ReplyShape::WithChatId(chat_id), Ok(resp)) matches Ok(j) && j.get(
            "chat_id"@,
        ) == Some(json_i64(chat_id)),
{
    let extra = obj1("chat_id"@, json_i64(chat_id));
    let target = match resp {
        ToolResponseView::MessageSent(id) => obj2("ok"@, Json::Bool(true), "message_id"@, id),
        _ => ack(),
    };
    assert(extra.entries().drop_last() =~= Seq::<(Seq<char>, Json)>::empty());
    assert(extra.entries().len() == 1);
    assert(extra.entries().last() == ("chat_id"@, json_i64(chat_id)));
    assert(insert_all(target.entries(), Seq::<(Seq<char>, Json)>::empty()) == target.entries());
    assert(insert_all(target.entries(), extra.entries()) == insert(
        target.entries(),
        "chat_id"@,
        json_i64(chat_id),
    ));
    lemma_lookup_insert(target.entries(), "chat_id"@, json_i64(chat_id));
}

/// A media call sends the tool's own arguments, with `chat_id` set to the
/// parsed chat id and every other argument as it was.
pub proof fn lemma_media_payload(args: Json, other: Seq<char>)
    requires
        send_media_plan(args) is Ok,
        other != "chat_id"@,
    ensures
        send_media_plan(args) matches Ok((BotCallView::Custom(_, payload), _)) && payload.get(
            "chat_id"@,
        ) == Some(json_i64(int_field(args, "chat_id"@)->Ok_0)) && payload.get(other) == args.get(
            other,
        ),
{
    let c = int_field(args, "chat_id"@)->Ok_0;
    assert(args is Obj);
    lemma_lookup_insert(args.entries(), "chat_id"@, json_i64(c));
    lemma_lookup_insert_other(args.entries(), "chat_id"@, json_i64(c), other);
}

} // verus!
