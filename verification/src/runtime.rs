//! The decisions the subprocess makes around its I/O: which broker to
//! connect to, and which topics the auto-discovery subscribers serve
//! and how each request on them is answered.

use vstd::prelude::*;
use crate::auto_discovery::{
    admin_handle, admin_reply, field_or, http_reply, http_request, metrics_scrape, metrics_text,
    normalize_reply, normalized_sender, obj1, pairing_normalize_sender, pairing_send_qr_image,
    pairing_send_reply, qr_reply, base64_decoding, send_reply_reply,
};
use crate::json::{Json, JsonValue};
use crate::subprocess_dispatch::{ToolError, ToolErrorView};
use crate::text::{concat, has_prefix, starts_with, str_eq};

verus! {

broadcast use vstd::string::group_string_axioms;

/// The kind of broker a URL names.
#[derive(Clone, Copy, Debug, PartialEq, Eq, Structural)]
pub enum BrokerKind {
    /// A `nats://` URL.
    Nats,
    /// Any other URL: the in-process broker.
    Local,
}

/// Where the subprocess's broker comes from.
#[derive(Debug, PartialEq)]
pub enum BrokerPlan {
    /// The stdio bridge the daemon set up (`NEXO_BROKER_KIND=stdio_bridge`).
    StdioBridge,
    /// A connection to `url`.
    Connect { url: String, kind: BrokerKind },
}

pub enum BrokerPlanView {
    StdioBridge,
    Connect(Seq<char>, BrokerKind),
}

impl View for BrokerPlan {
    type V = BrokerPlanView;

    open spec fn view(&self) -> BrokerPlanView {
        match self {
            BrokerPlan::StdioBridge => BrokerPlanView::StdioBridge,
            BrokerPlan::Connect { url, kind } => BrokerPlanView::Connect(url@, *kind),
        }
    }
}

/// Why no broker can be had.
#[derive(Clone, Copy, Debug, PartialEq, Eq, Structural)]
pub enum BrokerPlanError {
    /// Stdio-bridge mode, but the bridge has not been wired yet.
    BridgeNotInitialized,
    /// `NEXO_BROKER_URL` is unset.
    UrlNotSet,
}

/// Whether `NEXO_BROKER_KIND` asks for the stdio bridge.
pub open spec fn wants_bridge(kind: Option<Seq<char>>) -> bool {
    kind == Some("stdio_bridge"@)
}

/// The broker for the given `NEXO_BROKER_KIND` and `NEXO_BROKER_URL`
/// (unset kind means NATS).
pub open spec fn broker_plan(kind: Option<Seq<char>>, url: Option<Seq<char>>, bridge_ready: bool) -> Result<
    BrokerPlanView,
    BrokerPlanError,
> {
    if wants_bridge(kind) {
        if bridge_ready {
            Ok(BrokerPlanView::StdioBridge)
        } else {
            Err(BrokerPlanError::BridgeNotInitialized)
        }
    } else {
        match url {
            None => Err(BrokerPlanError::UrlNotSet),
            Some(u) => Ok(
                BrokerPlanView::Connect(
                    u,
                    if has_prefix(u, "nats://"@) {
                        BrokerKind::Nats
                    } else {
                        BrokerKind::Local
                    },
                ),
            ),
        }
    }
}

pub open spec fn opt_view(o: Option<&str>) -> Option<Seq<char>> {
    match o {
        Some(s) => Some(s@),
        None => None,
    }
}

pub open spec fn opt_string_view(o: Option<String>) -> Option<Seq<char>> {
    match o {
        Some(s) => Some(s@),
        None => None,
    }
}

/// Whether `NEXO_BROKER_KIND` asks for the stdio bridge.
pub fn uses_stdio_bridge(kind: Option<&str>) -> (r: bool)
    ensures
        r == wants_bridge(opt_view(kind)),
{
    match kind {
        Some(k) => str_eq(k, "stdio_bridge"),
        None => false,
    }
}

/// Decides where the broker comes from: the stdio bridge where the kind
/// asks for it (and it has been wired), otherwise a connection to the
/// URL, NATS for `nats://` URLs and the in-process broker for others.
pub fn plan_broker(kind: Option<&str>, url: Option<String>, bridge_ready: bool) -> (r: Result<
    BrokerPlan,
    BrokerPlanError,
>)
    ensures
        match r {
            Ok(p) => broker_plan(opt_view(kind), opt_string_view(url), bridge_ready) == Ok::<
                BrokerPlanView,
                BrokerPlanError,
            >(p@),
            Err(e) => broker_plan(opt_view(kind), opt_string_view(url), bridge_ready) == Err::<
                BrokerPlanView,
                BrokerPlanError,
            >(e),
        },
{
    if uses_stdio_bridge(kind) {
        if bridge_ready {
            return Ok(BrokerPlan::StdioBridge);
        }
        return Err(BrokerPlanError::BridgeNotInitialized);
    }
    match url {
        None => Err(BrokerPlanError::UrlNotSet),
        Some(u) => {
            let kind = if starts_with(u.as_str(), "nats://") {
                BrokerKind::Nats
            } else {
                BrokerKind::Local
            };
            Ok(BrokerPlan::Connect { url: u, kind })
        },
    }
}

/// The `tool.invoke` path's error when no broker can be had.
pub open spec fn tool_broker_error_text(e: BrokerPlanError) -> Seq<char> {
    match e {
        BrokerPlanError::BridgeNotInitialized => "stdio_bridge mode: BRIDGE not initialized — main() must call PluginAdapter::with_stdio_bridge_broker before tool.invoke"@,
        BrokerPlanError::UrlNotSet => "NEXO_BROKER_URL not set — daemon must seed it before tool.invoke"@,
    }
}

/// The auto-discovery subscribers' error when no broker can be had.
pub open spec fn subscriber_broker_error_text(e: BrokerPlanError) -> Seq<char> {
    match e {
        BrokerPlanError::BridgeNotInitialized => "BRIDGE not initialized"@,
        BrokerPlanError::UrlNotSet => "NEXO_BROKER_URL not set"@,
    }
}

pub open spec fn tool_plan_view(r: Result<BrokerPlan, ToolError>) -> Result<BrokerPlanView, ToolErrorView> {
    match r {
        Ok(p) => Ok(p@),
        Err(e) => Err(e@),
    }
}

/// The broker a `tool.invoke` uses, before any connection is tried: the
/// plan, or the plugin reported unavailable with the reason.
pub fn broker_for_tool(kind: Option<&str>, url: Option<String>, bridge_ready: bool) -> (r: Result<
    BrokerPlan,
    ToolError,
>)
    ensures
        tool_plan_view(r) == match broker_plan(opt_view(kind), opt_string_view(url), bridge_ready) {
            Ok(p) => Ok::<BrokerPlanView, ToolErrorView>(p),
            Err(e) => Err(ToolErrorView::Unavailable(tool_broker_error_text(e))),
        },
{
    match plan_broker(kind, url, bridge_ready) {
        Ok(p) => Ok(p),
        Err(BrokerPlanError::BridgeNotInitialized) => Err(
            ToolError::Unavailable(
                "stdio_bridge mode: BRIDGE not initialized — main() must call PluginAdapter::with_stdio_bridge_broker before tool.invoke".to_string(),
            ),
        ),
        Err(BrokerPlanError::UrlNotSet) => Err(
            ToolError::Unavailable(
                "NEXO_BROKER_URL not set — daemon must seed it before tool.invoke".to_string(),
            ),
        ),
    }
}

/// The `tool.invoke` path's error when connecting to the planned broker
/// failed with `detail`.
pub fn broker_connect_failed(detail: &str) -> (r: ToolError)
    ensures
        r@ == ToolErrorView::Unavailable("broker connect failed: "@ + detail@),
{
    ToolError::Unavailable(concat("broker connect failed: ", detail))
}

pub open spec fn text_plan_view(r: Result<BrokerPlan, String>) -> Result<BrokerPlanView, Seq<char>> {
    match r {
        Ok(p) => Ok(p@),
        Err(m) => Err(m@),
    }
}

/// The broker the auto-discovery subscribers read from, before any
/// connection is tried: the plan, or the reason there is none.
pub fn broker_for_subscribers(kind: Option<&str>, url: Option<String>, bridge_ready: bool) -> (r:
    Result<BrokerPlan, String>)
    ensures
        text_plan_view(r) == match broker_plan(opt_view(kind), opt_string_view(url), bridge_ready) {
            Ok(p) => Ok::<BrokerPlanView, Seq<char>>(p),
            Err(e) => Err(subscriber_broker_error_text(e)),
        },
{
    match plan_broker(kind, url, bridge_ready) {
        Ok(p) => Ok(p),
        Err(BrokerPlanError::BridgeNotInitialized) => Err("BRIDGE not initialized".to_string()),
        Err(BrokerPlanError::UrlNotSet) => Err("NEXO_BROKER_URL not set".to_string()),
    }
}

/// The request-reply topics the auto-discovery subscribers serve.
#[derive(Clone, Copy, Debug, PartialEq, Eq, Structural)]
pub enum AutoDiscoveryRoute {
    NormalizeSender,
    SendReply,
    SendQrImage,
    HttpRequest,
    MetricsScrape,
    Admin,
}

pub open spec fn route_topic_text(route: AutoDiscoveryRoute) -> Seq<char> {
    match route {
        AutoDiscoveryRoute::NormalizeSender => "plugin.telegram.pairing.normalize_sender"@,
        AutoDiscoveryRoute::SendReply => "plugin.telegram.pairing.send_reply"@,
        AutoDiscoveryRoute::SendQrImage => "plugin.telegram.pairing.send_qr_image"@,
        AutoDiscoveryRoute::HttpRequest => "plugin.telegram.http.request"@,
        AutoDiscoveryRoute::MetricsScrape => "plugin.telegram.metrics.scrape"@,
        AutoDiscoveryRoute::Admin => "plugin.telegram.admin.>"@,
    }
}

impl AutoDiscoveryRoute {
    /// The broker topic (pattern) the route subscribes to.
    pub fn topic(&self) -> (r: &'static str)
        ensures
            r@ == route_topic_text(*self),
    {
        match self {
            AutoDiscoveryRoute::NormalizeSender => "plugin.telegram.pairing.normalize_sender",
            AutoDiscoveryRoute::SendReply => "plugin.telegram.pairing.send_reply",
            AutoDiscoveryRoute::SendQrImage => "plugin.telegram.pairing.send_qr_image",
            AutoDiscoveryRoute::HttpRequest => "plugin.telegram.http.request",
            AutoDiscoveryRoute::MetricsScrape => "plugin.telegram.metrics.scrape",
            AutoDiscoveryRoute::Admin => "plugin.telegram.admin.>",
        }
    }
}

/// Every route, each served by a subscriber of its own.
pub fn auto_discovery_routes() -> (r: Vec<AutoDiscoveryRoute>)
    ensures
        r@ == seq![
            AutoDiscoveryRoute::NormalizeSender,
            AutoDiscoveryRoute::SendReply,
            AutoDiscoveryRoute::SendQrImage,
            AutoDiscoveryRoute::HttpRequest,
            AutoDiscoveryRoute::MetricsScrape,
            AutoDiscoveryRoute::Admin,
        ],
{
    let mut r: Vec<AutoDiscoveryRoute> = Vec::new();
    r.push(AutoDiscoveryRoute::NormalizeSender);
    r.push(AutoDiscoveryRoute::SendReply);
    r.push(AutoDiscoveryRoute::SendQrImage);
    r.push(AutoDiscoveryRoute::HttpRequest);
    r.push(AutoDiscoveryRoute::MetricsScrape);
    r.push(AutoDiscoveryRoute::Admin);
    assert(r@ =~= seq![
        AutoDiscoveryRoute::NormalizeSender,
        AutoDiscoveryRoute::SendReply,
        AutoDiscoveryRoute::SendQrImage,
        AutoDiscoveryRoute::HttpRequest,
        AutoDiscoveryRoute::MetricsScrape,
        AutoDiscoveryRoute::Admin,
    ]);
    r
}

/// The reply each route gives to a request payload.
pub open spec fn route_reply(route: AutoDiscoveryRoute, payload: Json) -> Json {
    match route {
        AutoDiscoveryRoute::NormalizeSender => normalize_reply(
            normalized_sender(field_or(payload, "raw"@, Seq::empty())),
        ),
        AutoDiscoveryRoute::SendReply => send_reply_reply(payload),
        AutoDiscoveryRoute::SendQrImage => qr_reply(
            base64_decoding(field_or(payload, "png_base64"@, Seq::empty())),
        ),
        AutoDiscoveryRoute::HttpRequest => http_reply(
            field_or(payload, "method"@, "GET"@),
            field_or(payload, "path"@, "/"@),
        ),
        AutoDiscoveryRoute::MetricsScrape => obj1("text"@, Json::Str(metrics_text())),
        AutoDiscoveryRoute::Admin => admin_reply(field_or(payload, "method"@, Seq::empty())),
    }
}

/// Answers one request on a route.
pub fn handle_auto_discovery(route: AutoDiscoveryRoute, payload: &JsonValue) -> (r: JsonValue)
    ensures
        r@ == route_reply(route, payload@),
{
    match route {
        AutoDiscoveryRoute::NormalizeSender => pairing_normalize_sender(payload),
        AutoDiscoveryRoute::SendReply => pairing_send_reply(payload),
        AutoDiscoveryRoute::SendQrImage => pairing_send_qr_image(payload),
        AutoDiscoveryRoute::HttpRequest => http_request(payload),
        AutoDiscoveryRoute::MetricsScrape => metrics_scrape(payload),
        AutoDiscoveryRoute::Admin => admin_handle(payload),
    }
}

/// What a subscriber does with one request message: a message without a
/// `reply_to` is dropped; otherwise the route's reply goes to `reply_to`.
pub fn auto_discovery_reply(route: AutoDiscoveryRoute, reply_to: Option<String>, payload: &JsonValue) -> (r:
    Option<(String, JsonValue)>)
    ensures
        reply_to is None ==> r is None,
        reply_to matches Some(to) ==> r matches Some(out) && out.0@ == to@ && out.1@ == route_reply(
            route,
            payload@,
        ),
{
    match reply_to {
        None => None,
        Some(to) => Some((to, handle_auto_discovery(route, payload))),
    }
}

/// The broker choice: `NEXO_BROKER_KIND=stdio_bridge` uses the bridge
/// whatever the URL (and fails while it is not wired); any other kind,
/// or none, connects to `NEXO_BROKER_URL`, which must be set, as NATS when
/// it starts with `nats://` and as the in-process broker otherwise.
pub proof fn lemma_broker_choice(kind: Option<Seq<char>>, url: Option<Seq<char>>, ready: bool)
    ensures
        kind == Some("stdio_bridge"@) ==> broker_plan(kind, url, ready) == if ready {
            Ok::<BrokerPlanView, BrokerPlanError>(BrokerPlanView::StdioBridge)
        } else {
            Err(BrokerPlanError::BridgeNotInitialized)
        },
        kind != Some("stdio_bridge"@) && url is None ==> broker_plan(kind, url, ready) == Err::<
            BrokerPlanView,
            BrokerPlanError,
        >(BrokerPlanError::UrlNotSet),
        kind != Some("stdio_bridge"@) && url is Some ==> broker_plan(kind, url, ready) == Ok::<
            BrokerPlanView,
            BrokerPlanError,
        >(
            BrokerPlanView::Connect(
                url->0,
                if url->0.len() >= 7 && url->0.subrange(0, 7) == "nats://"@ {
                    BrokerKind::Nats
                } else {
                    BrokerKind::Local
                },
            ),
        ),
{
    reveal_strlit("nats://");
}

/// Whether a request field is missing, not a string, or empty.
pub open spec fn field_missing(p: Json, key: Seq<char>) -> bool {
    match p.str_at(key) {
        Some(s) => s.len() == 0,
        None => true,
    }
}

/// A `send_reply` request is acknowledged only when it names both the
/// account and the recipient; otherwise it is refused with `"ok": false`
/// and the reason.
pub proof fn lemma_send_reply_route(p: Json)
    ensures
        route_reply(AutoDiscoveryRoute::SendReply, p) == if field_missing(p, "account"@)
            || field_missing(p, "to"@) {
            Json::Obj(seq![("ok"@, Json::Bool(false)), ("error"@, Json::Str("account and to required"@))])
        } else {
            Json::Obj(seq![("ok"@, Json::Bool(true))])
        },
{
}

/// Each route answers with its own handler: the reply on a route is what
/// that route's handler gives for the payload.
pub proof fn lemma_routes_use_their_handlers(p: Json)
    ensures
        route_reply(AutoDiscoveryRoute::NormalizeSender, p) == normalize_reply(
            normalized_sender(field_or(p, "raw"@, Seq::empty())),
        ),
        route_reply(AutoDiscoveryRoute::SendReply, p) == send_reply_reply(p),
        route_reply(AutoDiscoveryRoute::SendQrImage, p) == qr_reply(
            base64_decoding(field_or(p, "png_base64"@, Seq::empty())),
        ),
        route_reply(AutoDiscoveryRoute::HttpRequest, p) == http_reply(
            field_or(p, "method"@, "GET"@),
            field_or(p, "path"@, "/"@),
        ),
        route_reply(AutoDiscoveryRoute::MetricsScrape, p) == obj1("text"@, Json::Str(metrics_text())),
        route_reply(AutoDiscoveryRoute::Admin, p) == admin_reply(field_or(p, "method"@, Seq::empty())),
{
}

} // verus!
