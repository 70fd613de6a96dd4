//! `nexo-plugin-telegram` — Telegram Bot channel plugin for the Nexo
//! agent framework.
//!
//! The daemon runs the plugin as a subprocess that speaks JSON-RPC over
//! stdio. This library holds what the subprocess decides: the account
//! configuration and where it comes from (the `plugin.configure` list or
//! the env vars the daemon seeds), the credential-store handlers, the
//! auto-discovery broker handlers, the `tool.invoke` routing for the six
//! `telegram_*` tools, and the choice of broker.

pub mod text;
pub mod json;
pub mod config;
pub mod env_config;
pub mod auto_discovery;
pub mod subprocess_dispatch;
pub mod configured_state;
pub mod runtime;
pub mod standard_base64;

pub use config::{
    TelegramAllowlistConfig, TelegramAutoTranscribeConfig, TelegramPluginConfig,
    TelegramPollingConfig,
};
pub use configured_state::{
    credentials_issue, credentials_list, credentials_resolve, shared_plugin_config,
    ConfiguredState, CredentialError, PluginStart, SharedPlugin,
};
pub use env_config::{telegram_config_from_env, ConfigError, EnvVar, EnvVars};
pub use json::{JsonNumber, JsonValue};
pub use subprocess_dispatch::{
    dispatch_telegram_tool, telegram_tool_defs, tool_result, ToolError, ToolInvocation, ToolSpec,
};
