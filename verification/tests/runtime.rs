use nexo_plugin_telegram::runtime::{
    auto_discovery_reply, auto_discovery_routes, broker_connect_failed, broker_for_subscribers,
    broker_for_tool, plan_broker, uses_stdio_bridge, AutoDiscoveryRoute, BrokerKind, BrokerPlan,
    BrokerPlanError,
};
use nexo_plugin_telegram::{JsonValue, ToolError};

fn obj(pairs: Vec<(&str, JsonValue)>) -> JsonValue {
    JsonValue::Object(pairs.into_iter().map(|(k, v)| (k.to_string(), v)).collect())
}

#[test]
fn broker_kind_selection() {
    assert_eq!(
        plan_broker(None, Some("nats://127.0.0.1:4222".to_string()), false),
        Ok(BrokerPlan::Connect { url: "nats://127.0.0.1:4222".to_string(), kind: BrokerKind::Nats })
    );
    assert_eq!(
        plan_broker(Some("nats"), Some("memory".to_string()), false),
        Ok(BrokerPlan::Connect { url: "memory".to_string(), kind: BrokerKind::Local })
    );
    assert_eq!(plan_broker(None, None, true), Err(BrokerPlanError::UrlNotSet));
    assert_eq!(plan_broker(Some("stdio_bridge"), None, true), Ok(BrokerPlan::StdioBridge));
    assert_eq!(
        plan_broker(Some("stdio_bridge"), Some("nats://x".to_string()), false),
        Err(BrokerPlanError::BridgeNotInitialized)
    );
    assert!(uses_stdio_bridge(Some("stdio_bridge")));
    assert!(!uses_stdio_bridge(Some("nats")));
    assert!(!uses_stdio_bridge(None));
}

#[test]
fn routes_and_topics() {
    let topics: Vec<&str> = auto_discovery_routes().iter().map(|r| r.topic()).collect();
    assert_eq!(
        topics,
        vec![
            "plugin.telegram.pairing.normalize_sender",
            "plugin.telegram.pairing.send_reply",
            "plugin.telegram.pairing.send_qr_image",
            "plugin.telegram.http.request",
            "plugin.telegram.metrics.scrape",
            "plugin.telegram.admin.>",
        ]
    );
}

#[test]
fn replies_go_to_reply_to_only() {
    let payload = obj(vec![("raw", JsonValue::String("@Alice_Bob".to_string()))]);
    assert!(auto_discovery_reply(AutoDiscoveryRoute::NormalizeSender, None, &payload).is_none());
    let (to, reply) = auto_discovery_reply(
        AutoDiscoveryRoute::NormalizeSender,
        Some("_INBOX.1".to_string()),
        &payload,
    )
    .unwrap();
    assert_eq!(to, "_INBOX.1");
    assert_eq!(reply.get("normalized").and_then(|v| v.as_str()), Some("@alice_bob"));
    let (_, reply) =
        auto_discovery_reply(AutoDiscoveryRoute::MetricsScrape, Some("r".to_string()), &obj(vec![]))
            .unwrap();
    assert!(reply.get("text").and_then(|v| v.as_str()).unwrap().starts_with("# HELP telegram_"));
}

#[test]
fn broker_errors_name_the_missing_piece() {
    assert_eq!(
        broker_for_tool(None, None, false).unwrap_err(),
        ToolError::Unavailable(
            "NEXO_BROKER_URL not set — daemon must seed it before tool.invoke".to_string()
        )
    );
    assert_eq!(
        broker_for_tool(Some("stdio_bridge"), Some("nats://x".to_string()), false).unwrap_err(),
        ToolError::Unavailable(
            "stdio_bridge mode: BRIDGE not initialized — main() must call \
             PluginAdapter::with_stdio_bridge_broker before tool.invoke"
                .to_string()
        )
    );
    assert_eq!(broker_for_tool(Some("stdio_bridge"), None, true).unwrap(), BrokerPlan::StdioBridge);
    assert_eq!(
        broker_for_subscribers(Some("nats"), None, false).unwrap_err(),
        "NEXO_BROKER_URL not set"
    );
    assert_eq!(
        broker_for_subscribers(Some("stdio_bridge"), None, false).unwrap_err(),
        "BRIDGE not initialized"
    );
    assert_eq!(
        broker_connect_failed("timed out"),
        ToolError::Unavailable("broker connect failed: timed out".to_string())
    );
}
