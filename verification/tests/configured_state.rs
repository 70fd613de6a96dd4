use nexo_plugin_telegram::config::{
    default_bridge_timeout_ms, default_polling_enabled, default_polling_interval,
    default_whisper_command, default_whisper_timeout,
};
use nexo_plugin_telegram::{
    credentials_issue, credentials_list, credentials_resolve, shared_plugin_config,
    telegram_config_from_env, ConfiguredState, CredentialError, EnvVars,
    TelegramAllowlistConfig, TelegramAutoTranscribeConfig, TelegramPluginConfig,
    TelegramPollingConfig, ToolError,
};
use nexo_plugin_telegram::{PluginStart, SharedPlugin};

/// The account an operator YAML entry with only `token` (and maybe
/// `instance` / `allow_agents`) describes: every absent section takes
/// its `Default`, every absent field its default value.
fn account(token: &str, instance: Option<&str>, allow_agents: &[&str]) -> TelegramPluginConfig {
    TelegramPluginConfig {
        token: token.to_string(),
        polling: TelegramPollingConfig::default(),
        allowlist: TelegramAllowlistConfig::default(),
        auto_transcribe: TelegramAutoTranscribeConfig::default(),
        bridge_timeout_ms: default_bridge_timeout_ms(),
        instance: instance.map(|s| s.to_string()),
        allow_agents: allow_agents.iter().map(|s| s.to_string()).collect(),
    }
}

fn env_with_token(token: &str, offset: &str) -> EnvVars {
    EnvVars {
        token: Some(token.to_string()),
        instance: None,
        allowlist: None,
        interval_ms: None,
        bridge_timeout_ms: None,
        offset_path: Some(offset.to_string()),
        auto_transcribe: None,
        whisper_command: None,
        whisper_timeout_ms: None,
        whisper_language: None,
    }
}

fn no_env() -> EnvVars {
    EnvVars {
        token: None,
        instance: None,
        allowlist: None,
        interval_ms: None,
        bridge_timeout_ms: None,
        offset_path: None,
        auto_transcribe: None,
        whisper_command: None,
        whisper_timeout_ms: None,
        whisper_language: None,
    }
}

#[test]
fn configure_overwrites_on_hot_reload_recall() {
    let mut state = ConfiguredState::new();
    state.configure(vec![account("first", None, &[])]);
    state.configure(vec![account("second", None, &[])]);
    let current = state.configs().expect("state populated");
    assert_eq!(current.len(), 1);
    assert_eq!(current[0].token, "second");
    state.clear();
    assert!(state.configs().is_none());
}

#[test]
fn legacy_env_path_active_when_configured_state_empty() {
    let state = ConfiguredState::new();
    let env = env_with_token("env_tok", "/tmp/x");
    let cfg = telegram_config_from_env(&env).expect("env path works");
    assert_eq!(cfg.token, "env_tok");
    let chosen = shared_plugin_config(&state, &env).expect("env fallback");
    assert_eq!(chosen.token, "env_tok");
}

#[test]
fn configured_state_value_wins_over_env_var() {
    let mut state = ConfiguredState::new();
    state.configure(vec![account("FROM_RPC", None, &[])]);
    let env = env_with_token("FROM_ENV", "/tmp/y");
    let chosen = shared_plugin_config(&state, &env).expect("non-empty");
    assert_eq!(chosen.token, "FROM_RPC");
}

#[test]
fn list_returns_configured_instance_names() {
    let mut state = ConfiguredState::new();
    state.configure(vec![account("abc", Some("main"), &[]), account("def", Some("secondary"), &[])]);
    let accounts = credentials_list(&state);
    assert_eq!(accounts.len(), 2);
    assert!(accounts.contains(&"main".to_string()));
    assert!(accounts.contains(&"secondary".to_string()));
}

#[test]
fn issue_permits_when_allow_agents_empty() {
    let mut state = ConfiguredState::new();
    state.configure(vec![account("abc", Some("main"), &[])]);
    credentials_issue(&state, "main", "alice").expect("accepted");
}

#[test]
fn issue_rejects_when_account_not_found() {
    let state = ConfiguredState::new();
    let err = credentials_issue(&state, "nonexistent", "alice").expect_err("expected not_found");
    assert_eq!(err.code(), "not_found");
}

#[test]
fn issue_rejects_when_allow_agents_excludes() {
    let mut state = ConfiguredState::new();
    state.configure(vec![account("abc", Some("main"), &["bob"])]);
    let err = credentials_issue(&state, "main", "alice").expect_err("expected not_permitted");
    assert_eq!(err.code(), "not_permitted");
}

#[test]
fn resolve_bytes_returns_serde_json_encoded_config() {
    let mut state = ConfiguredState::new();
    state.configure(vec![account("secret_token", Some("main"), &[])]);
    let resolved = credentials_resolve(&state, "main").expect("resolve ok");
    assert_eq!(resolved.token, "secret_token");
    assert_eq!(resolved.instance.as_deref(), Some("main"));
}

// ── further cases ──────────────────────────────────────────────

#[test]
fn list_skips_unlabelled_accounts_and_keeps_order() {
    let mut state = ConfiguredState::new();
    assert!(credentials_list(&state).is_empty());
    state.configure(vec![
        account("a", Some("one"), &[]),
        account("b", None, &[]),
        account("c", Some("three"), &[]),
    ]);
    assert_eq!(credentials_list(&state), vec!["one".to_string(), "three".to_string()]);
}

#[test]
fn issue_permits_listed_agent_and_uses_first_matching_account() {
    let mut state = ConfiguredState::new();
    state.configure(vec![
        account("a", Some("main"), &["bob", "carol"]),
        account("b", Some("main"), &[]),
    ]);
    assert_eq!(credentials_issue(&state, "main", "carol"), Ok(()));
    assert_eq!(credentials_issue(&state, "main", "dave"), Err(CredentialError::NotPermitted));
    assert_eq!(credentials_issue(&state, "other", "bob"), Err(CredentialError::NotFound));
    assert_eq!(credentials_resolve(&state, "main").unwrap().token, "a");
    assert_eq!(credentials_resolve(&state, "other").unwrap_err(), CredentialError::NotFound);
}

#[test]
fn empty_delivered_list_is_an_argument_error() {
    let mut state = ConfiguredState::new();
    state.configure(Vec::new());
    let err = shared_plugin_config(&state, &env_with_token("t", "/tmp/z")).unwrap_err();
    assert_eq!(
        err,
        ToolError::ArgumentInvalid("configured array delivered empty Vec".to_string())
    );
}

#[test]
fn env_error_is_reported_as_env_config() {
    let state = ConfiguredState::new();
    let err = shared_plugin_config(&state, &no_env()).unwrap_err();
    assert_eq!(
        err,
        ToolError::ArgumentInvalid(
            "env config: NEXO_PLUGIN_TELEGRAM_TOKEN missing — daemon must seed the bot token"
                .to_string()
        )
    );
}

#[test]
fn delivered_account_is_copied_whole() {
    let mut state = ConfiguredState::new();
    let mut a = account("tok", Some("main"), &["bob"]);
    a.allowlist.chat_ids = vec![1, -2];
    a.polling.offset_path = Some("/var/tg".to_string());
    a.auto_transcribe.language = Some("es".to_string());
    state.configure(vec![a]);
    let c = shared_plugin_config(&state, &no_env()).unwrap();
    assert_eq!(c.allowlist.chat_ids, vec![1, -2]);
    assert_eq!(c.polling.offset_path.as_deref(), Some("/var/tg"));
    assert_eq!(c.auto_transcribe.language.as_deref(), Some("es"));
    assert_eq!(c.allow_agents, vec!["bob".to_string()]);
    assert_eq!(c.bridge_timeout_ms, 120_000);
}

#[test]
fn field_defaults() {
    assert_eq!(default_bridge_timeout_ms(), 120_000);
    assert_eq!(default_whisper_timeout(), 60_000);
    assert_eq!(default_polling_interval(), 25_000);
    assert!(default_polling_enabled());
    assert_eq!(
        default_whisper_command(),
        "./extensions/openai-whisper/target/release/openai-whisper"
    );
    let p = TelegramPollingConfig::default();
    assert!(!p.enabled);
    assert_eq!(p.interval_ms, 0);
    let t = TelegramAutoTranscribeConfig::default();
    assert!(t.command.is_empty());
    assert_eq!(t.timeout_ms, 0);
}

/// A `tool.invoke` on a plugin that has neither a delivered list nor a
/// token in its env fails before any bot call, as an invalid argument
/// (the `-33402` band) whose message hints at the missing env var.
#[test]
fn tool_invoke_without_token_env_returns_argument_invalid() {
    let state = ConfiguredState::new();
    let err = shared_plugin_config(&state, &no_env()).unwrap_err();
    match err {
        ToolError::ArgumentInvalid(msg) => {
            assert!(msg.contains("env config"), "got {msg}");
            assert!(
                msg.contains("TOKEN"),
                "error message should hint at missing env, got: {msg}"
            );
        }
        other => panic!("expected an invalid-argument error, got {other:?}"),
    }
}

#[test]
fn plugin_boots_once_and_is_reused() {
    let mut state = ConfiguredState::new();
    let mut plugin = SharedPlugin::new();
    // No configuration at all: the boot fails and nothing is kept.
    assert!(plugin.start(&state, &no_env()).is_err());
    assert!(plugin.config().is_none());
    state.configure(vec![account("first", None, &[])]);
    let cfg = match plugin.start(&state, &no_env()).unwrap() {
        PluginStart::Boot(c) => c,
        other => panic!("expected a boot, got {other:?}"),
    };
    assert_eq!(cfg.token, "first");
    plugin.booted_with(cfg);
    // A new delivery, or env vars, change nothing once running.
    state.configure(vec![account("second", None, &[])]);
    match plugin.start(&state, &env_with_token("env", "/tmp/x")).unwrap() {
        PluginStart::Running(c) => assert_eq!(c.token, "first"),
        other => panic!("expected the running plugin, got {other:?}"),
    }
    plugin.booted_with(account("third", None, &[]));
    assert_eq!(plugin.config().unwrap().token, "first");
}
