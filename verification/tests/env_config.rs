use nexo_plugin_telegram::env_config::{parse_u64_var, EnvVar};
use nexo_plugin_telegram::{telegram_config_from_env, ConfigError, EnvVars};

fn no_vars() -> EnvVars {
    EnvVars {
        token: None,
        instance: None,
        allowlist: None,
        interval_ms: None,
        bridge_timeout_ms: None,
        offset_path: None,
        auto_transcribe: None,
        whisper_command: None,
        whisper_timeout_ms: None,
        whisper_language: None,
    }
}

fn some(s: &str) -> Option<String> {
    Some(s.to_string())
}

fn base() -> EnvVars {
    let mut env = no_vars();
    env.token = some("12345:abcdef");
    env.offset_path = some("/tmp/tg.offset");
    env
}

#[test]
fn config_happy_path() {
    let mut env = no_vars();
    env.token = some("12345:abcdef");
    env.offset_path = some("/tmp/tg.offset");
    env.instance = some("boss");
    env.allowlist = some("[100, 200]");
    env.interval_ms = some("2000");

    let cfg = telegram_config_from_env(&env).expect("happy path");
    assert_eq!(cfg.token, "12345:abcdef");
    assert_eq!(cfg.instance.as_deref(), Some("boss"));
    assert_eq!(cfg.allowlist.chat_ids, vec![100, 200]);
    assert_eq!(cfg.polling.interval_ms, 2000);
    assert_eq!(cfg.polling.offset_path.as_deref(), Some("/tmp/tg.offset"));
    assert!(!cfg.auto_transcribe.enabled);
}

#[test]
fn config_missing_token_errors() {
    let mut env = no_vars();
    env.offset_path = some("/tmp/tg.offset");
    let err = telegram_config_from_env(&env).unwrap_err();
    assert!(
        err.message().contains("NEXO_PLUGIN_TELEGRAM_TOKEN"),
        "error must name the missing var, got: {}",
        err.message()
    );
}

#[test]
fn config_invalid_allowlist_json_errors() {
    let mut env = base();
    env.allowlist = some("[not, json");
    let err = telegram_config_from_env(&env).unwrap_err();
    assert!(
        err.message().contains("NEXO_PLUGIN_TELEGRAM_ALLOWLIST"),
        "error must name the offending var, got: {}",
        err.message()
    );
}

#[test]
fn config_empty_token_errors() {
    let mut env = no_vars();
    env.token = some("   ");
    env.offset_path = some("/tmp/tg.offset");
    let err = telegram_config_from_env(&env).unwrap_err();
    assert!(err.message().contains("empty"), "got: {}", err.message());
}

// ── further cases ──────────────────────────────────────────────

#[test]
fn config_defaults_when_optional_vars_unset() {
    let cfg = telegram_config_from_env(&base()).expect("minimal env");
    assert!(cfg.polling.enabled);
    assert_eq!(cfg.polling.interval_ms, 1500);
    assert_eq!(cfg.bridge_timeout_ms, 30_000);
    assert_eq!(cfg.instance, None);
    assert!(cfg.allowlist.chat_ids.is_empty());
    assert!(cfg.allow_agents.is_empty());
    assert!(!cfg.auto_transcribe.enabled);
    assert_eq!(
        cfg.auto_transcribe.command,
        "./extensions/openai-whisper/target/release/openai-whisper"
    );
    assert_eq!(cfg.auto_transcribe.timeout_ms, 60_000);
    assert_eq!(cfg.auto_transcribe.language, None);
}

#[test]
fn config_blank_optional_vars_count_as_unset() {
    let mut env = base();
    env.instance = some("  ");
    env.allowlist = some(" \t");
    env.interval_ms = some(" ");
    env.whisper_language = some("");
    let cfg = telegram_config_from_env(&env).expect("blank optionals");
    assert_eq!(cfg.instance, None);
    assert!(cfg.allowlist.chat_ids.is_empty());
    assert_eq!(cfg.polling.interval_ms, 1500);
    assert_eq!(cfg.auto_transcribe.language, None);
}

#[test]
fn config_instance_keeps_its_untrimmed_text() {
    let mut env = base();
    env.instance = some(" boss ");
    let cfg = telegram_config_from_env(&env).unwrap();
    assert_eq!(cfg.instance.as_deref(), Some(" boss "));
}

#[test]
fn config_numeric_vars_are_trimmed_and_checked() {
    let mut env = base();
    env.interval_ms = some(" 2500 ");
    env.bridge_timeout_ms = some("+45000");
    let cfg = telegram_config_from_env(&env).unwrap();
    assert_eq!(cfg.polling.interval_ms, 2500);
    assert_eq!(cfg.bridge_timeout_ms, 45_000);

    let mut env = base();
    env.bridge_timeout_ms = some("-5");
    let err = telegram_config_from_env(&env).unwrap_err();
    assert_eq!(err, ConfigError::NotAnInteger(EnvVar::BridgeTimeoutMs, "-5".to_string()));
    assert_eq!(
        err.message(),
        "NEXO_PLUGIN_TELEGRAM_BRIDGE_TIMEOUT_MS=\"-5\" is not a non-negative integer"
    );
}

#[test]
fn config_offset_path_missing_and_blank() {
    let mut env = no_vars();
    env.token = some("t");
    let err = telegram_config_from_env(&env).unwrap_err();
    assert_eq!(err, ConfigError::OffsetPathMissing);
    assert!(err.message().contains("NEXO_PLUGIN_TELEGRAM_OFFSET_PATH missing"));
    env.offset_path = some("   ");
    let err = telegram_config_from_env(&env).unwrap_err();
    assert_eq!(err, ConfigError::OffsetPathEmpty);
}

#[test]
fn config_first_offender_is_reported() {
    // Token is checked before everything else.
    let mut env = no_vars();
    env.allowlist = some("nope");
    assert_eq!(telegram_config_from_env(&env).unwrap_err(), ConfigError::TokenMissing);
    // The allowlist comes before the interval and the offset path.
    let mut env = no_vars();
    env.token = some("t");
    env.allowlist = some("nope");
    env.interval_ms = some("x");
    assert_eq!(
        telegram_config_from_env(&env).unwrap_err(),
        ConfigError::AllowlistNotJson("nope".to_string())
    );
}

#[test]
fn config_allowlist_error_quotes_the_value() {
    let mut env = base();
    env.allowlist = some("[not, json");
    let err = telegram_config_from_env(&env).unwrap_err();
    assert_eq!(
        err.message(),
        "NEXO_PLUGIN_TELEGRAM_ALLOWLIST=\"[not, json\" must be a JSON array of i64 chat ids"
    );
}

#[test]
fn config_auto_transcribe_switches() {
    for (value, on) in [("1", true), (" TRUE ", true), ("Yes", true), ("no", false), ("", false)] {
        let mut env = base();
        env.auto_transcribe = some(value);
        env.whisper_command = some("/bin/whisper");
        env.whisper_timeout_ms = some("1000");
        env.whisper_language = some("es");
        let cfg = telegram_config_from_env(&env).unwrap();
        assert_eq!(cfg.auto_transcribe.enabled, on, "value {value:?}");
        assert_eq!(cfg.auto_transcribe.command, "/bin/whisper");
        assert_eq!(cfg.auto_transcribe.timeout_ms, 1000);
        assert_eq!(cfg.auto_transcribe.language.as_deref(), Some("es"));
    }
}

#[test]
fn parse_u64_var_bounds() {
    assert_eq!(
        parse_u64_var(EnvVar::IntervalMs, &some("18446744073709551615"), 1),
        Ok(u64::MAX)
    );
    assert!(parse_u64_var(EnvVar::IntervalMs, &some("18446744073709551616"), 1).is_err());
    assert_eq!(parse_u64_var(EnvVar::IntervalMs, &None, 7), Ok(7));
    assert!(parse_u64_var(EnvVar::IntervalMs, &some("1 2"), 7).is_err());
}

#[test]
fn env_var_names() {
    assert_eq!(EnvVar::Token.name(), "NEXO_PLUGIN_TELEGRAM_TOKEN");
    assert_eq!(EnvVar::WhisperLanguage.name(), "NEXO_PLUGIN_TELEGRAM_WHISPER_LANGUAGE");
}
