//! Env-var → [`TelegramPluginConfig`] reader.
//!
//! The daemon seeds these vars before spawning the subprocess; the
//! plugin never reads YAML from disk. The reader takes a snapshot of the
//! vars ([`EnvVars`]) and fails with an operator-readable message on the
//! first missing or malformed value, so boot logs name the offender.

use vstd::prelude::*;
use crate::config::{
    PluginConfigView, PollingView, AutoTranscribeView, TelegramAllowlistConfig,
    TelegramAutoTranscribeConfig, TelegramPluginConfig, TelegramPollingConfig, opt_str,
};
use crate::text::{
    ascii_lowercase, blank, chars_of, concat, concat3, debug_quoted, debug_text, has_prefix, is_blank,
    parse_u64, parse_u64_chars, trim, trimmed, trimmed_lowercase_is,
};

verus! {

broadcast use vstd::string::group_string_axioms;

/// The env vars the reader consults.
#[derive(Clone, Copy, Debug, PartialEq, Eq, Structural)]
pub enum EnvVar {
    Token,
    Instance,
    Allowlist,
    IntervalMs,
    BridgeTimeoutMs,
    OffsetPath,
    AutoTranscribe,
    WhisperCommand,
    WhisperTimeoutMs,
    WhisperLanguage,
}

pub open spec fn env_var_name(v: EnvVar) -> Seq<char> {
    match v {
        EnvVar::Token => "NEXO_PLUGIN_TELEGRAM_TOKEN"@,
        EnvVar::Instance => "NEXO_PLUGIN_TELEGRAM_INSTANCE"@,
        EnvVar::Allowlist => "NEXO_PLUGIN_TELEGRAM_ALLOWLIST"@,
        EnvVar::IntervalMs => "NEXO_PLUGIN_TELEGRAM_INTERVAL_MS"@,
        EnvVar::BridgeTimeoutMs => "NEXO_PLUGIN_TELEGRAM_BRIDGE_TIMEOUT_MS"@,
        EnvVar::OffsetPath => "NEXO_PLUGIN_TELEGRAM_OFFSET_PATH"@,
        EnvVar::AutoTranscribe => "NEXO_PLUGIN_TELEGRAM_AUTO_TRANSCRIBE"@,
        EnvVar::WhisperCommand => "NEXO_PLUGIN_TELEGRAM_WHISPER_COMMAND"@,
        EnvVar::WhisperTimeoutMs => "NEXO_PLUGIN_TELEGRAM_WHISPER_TIMEOUT_MS"@,
        EnvVar::WhisperLanguage => "NEXO_PLUGIN_TELEGRAM_WHISPER_LANGUAGE"@,
    }
}

impl EnvVar {
    /// The variable's name in the process environment.
    pub fn name(&self) -> (r: &'static str)
        ensures
            r@ == env_var_name(*self),
    {
        match self {
            EnvVar::Token => "NEXO_PLUGIN_TELEGRAM_TOKEN",
            EnvVar::Instance => "NEXO_PLUGIN_TELEGRAM_INSTANCE",
            EnvVar::Allowlist => "NEXO_PLUGIN_TELEGRAM_ALLOWLIST",
            EnvVar::IntervalMs => "NEXO_PLUGIN_TELEGRAM_INTERVAL_MS",
            EnvVar::BridgeTimeoutMs => "NEXO_PLUGIN_TELEGRAM_BRIDGE_TIMEOUT_MS",
            EnvVar::OffsetPath => "NEXO_PLUGIN_TELEGRAM_OFFSET_PATH",
            EnvVar::AutoTranscribe => "NEXO_PLUGIN_TELEGRAM_AUTO_TRANSCRIBE",
            EnvVar::WhisperCommand => "NEXO_PLUGIN_TELEGRAM_WHISPER_COMMAND",
            EnvVar::WhisperTimeoutMs => "NEXO_PLUGIN_TELEGRAM_WHISPER_TIMEOUT_MS",
            EnvVar::WhisperLanguage => "NEXO_PLUGIN_TELEGRAM_WHISPER_LANGUAGE",
        }
    }
}

/// A snapshot of the env vars: `None` where a var is unset (or not
/// valid Unicode, which `std::env::var` reports the same way).
#[derive(Clone, Debug)]
pub struct EnvVars {
    pub token: Option<String>,
    pub instance: Option<String>,
    pub allowlist: Option<String>,
    pub interval_ms: Option<String>,
    pub bridge_timeout_ms: Option<String>,
    pub offset_path: Option<String>,
    pub auto_transcribe: Option<String>,
    pub whisper_command: Option<String>,
    pub whisper_timeout_ms: Option<String>,
    pub whisper_language: Option<String>,
}

pub struct EnvView {
    pub token: Option<Seq<char>>,
    pub instance: Option<Seq<char>>,
    pub allowlist: Option<Seq<char>>,
    pub interval_ms: Option<Seq<char>>,
    pub bridge_timeout_ms: Option<Seq<char>>,
    pub offset_path: Option<Seq<char>>,
    pub auto_transcribe: Option<Seq<char>>,
    pub whisper_command: Option<Seq<char>>,
    pub whisper_timeout_ms: Option<Seq<char>>,
    pub whisper_language: Option<Seq<char>>,
}

impl View for EnvVars {
    type V = EnvView;

    open spec fn view(&self) -> EnvView {
        EnvView {
            token: opt_str(self.token),
            instance: opt_str(self.instance),
            allowlist: opt_str(self.allowlist),
            interval_ms: opt_str(self.interval_ms),
            bridge_timeout_ms: opt_str(self.bridge_timeout_ms),
            offset_path: opt_str(self.offset_path),
            auto_transcribe: opt_str(self.auto_transcribe),
            whisper_command: opt_str(self.whisper_command),
            whisper_timeout_ms: opt_str(self.whisper_timeout_ms),
            whisper_language: opt_str(self.whisper_language),
        }
    }
}

/// Why the env vars do not make a configuration.
#[derive(Debug, PartialEq)]
pub enum ConfigError {
    /// The token var is unset.
    TokenMissing,
    /// The token var holds only whitespace.
    TokenEmpty,
    /// The allowlist var is not a JSON array of `i64` chat ids.
    AllowlistNotJson(String),
    /// A numeric var is not a non-negative integer.
    NotAnInteger(EnvVar, String),
    /// The offset-path var is unset.
    OffsetPathMissing,
    /// The offset-path var holds only whitespace.
    OffsetPathEmpty,
}

pub enum ConfigErrorView {
    TokenMissing,
    TokenEmpty,
    AllowlistNotJson(Seq<char>),
    NotAnInteger(EnvVar, Seq<char>),
    OffsetPathMissing,
    OffsetPathEmpty,
}

impl View for ConfigError {
    type V = ConfigErrorView;

    open spec fn view(&self) -> ConfigErrorView {
        match self {
            ConfigError::TokenMissing => ConfigErrorView::TokenMissing,
            ConfigError::TokenEmpty => ConfigErrorView::TokenEmpty,
            ConfigError::AllowlistNotJson(s) => ConfigErrorView::AllowlistNotJson(s@),
            ConfigError::NotAnInteger(v, s) => ConfigErrorView::NotAnInteger(*v, s@),
            ConfigError::OffsetPathMissing => ConfigErrorView::OffsetPathMissing,
            ConfigError::OffsetPathEmpty => ConfigErrorView::OffsetPathEmpty,
        }
    }
}

/// The operator-readable message of each error.
pub open spec fn config_error_text(e: ConfigErrorView) -> Seq<char> {
    match e {
        ConfigErrorView::TokenMissing => env_var_name(EnvVar::Token)
            + " missing — daemon must seed the bot token"@,
        ConfigErrorView::TokenEmpty => env_var_name(EnvVar::Token)
            + " is empty — bot token must be a non-empty string"@,
        ConfigErrorView::AllowlistNotJson(s) => env_var_name(EnvVar::Allowlist) + "="@
            + debug_text(s) + " must be a JSON array of i64 chat ids"@,
        ConfigErrorView::NotAnInteger(v, s) => env_var_name(v) + "="@ + debug_text(s)
            + " is not a non-negative integer"@,
        ConfigErrorView::OffsetPathMissing => env_var_name(EnvVar::OffsetPath)
            + " missing — long-poll cursor file required"@,
        ConfigErrorView::OffsetPathEmpty => env_var_name(EnvVar::OffsetPath)
            + " is empty — supply a writable file path"@,
    }
}

impl ConfigError {
    /// The operator-readable message, naming the offending var.
    pub fn message(&self) -> (r: String)
        ensures
            r@ == config_error_text(self@),
    {
        match self {
            ConfigError::TokenMissing => concat(
                EnvVar::Token.name(),
                " missing — daemon must seed the bot token",
            ),
            ConfigError::TokenEmpty => concat(
                EnvVar::Token.name(),
                " is empty — bot token must be a non-empty string",
            ),
            ConfigError::AllowlistNotJson(s) => {
                let head = concat3(EnvVar::Allowlist.name(), "=", debug_quoted(s.as_str()).as_str());
                concat(head.as_str(), " must be a JSON array of i64 chat ids")
            },
            ConfigError::NotAnInteger(v, s) => {
                let head = concat3(v.name(), "=", debug_quoted(s.as_str()).as_str());
                concat(head.as_str(), " is not a non-negative integer")
            },
            ConfigError::OffsetPathMissing => concat(
                EnvVar::OffsetPath.name(),
                " missing — long-poll cursor file required",
            ),
            ConfigError::OffsetPathEmpty => concat(
                EnvVar::OffsetPath.name(),
                " is empty — supply a writable file path",
            ),
        }
    }
}

/// An optional var read as an optional value: unset or blank is absent.
pub open spec fn non_blank(v: Option<Seq<char>>) -> Option<Seq<char>> {
    match v {
        Some(s) => if is_blank(s) {
            None
        } else {
            Some(s)
        },
        None => None,
    }
}

/// A numeric var: unset or blank takes `default`; otherwise its trimmed
/// text must parse as a `u64`, else the var is reported (`None`).
pub open spec fn numeric_var(v: Option<Seq<char>>, default: u64) -> Option<u64> {
    match v {
        Some(s) => if is_blank(s) {
            Some(default)
        } else {
            match parse_u64(trim(s)) {
                Ok(n) => Some(n),
                Err(_) => None,
            }
        },
        None => Some(default),
    }
}

/// Whether the auto-transcribe var switches transcription on.
pub open spec fn switched_on(v: Option<Seq<char>>) -> bool {
    match v {
        Some(s) => {
            let w = ascii_lowercase(trim(s));
            w == "1"@ || w == "true"@ || w == "yes"@
        },
        None => false,
    }
}

/// The configuration that the env vars describe. `allowlist_json` is
/// what parsing the allowlist var as a JSON array of `i64` gave; it is
/// read only where that var is set and not blank.
pub open spec fn config_from_env_spec(env: EnvView, allowlist_json: Option<Seq<i64>>) -> Result<
    PluginConfigView,
    ConfigErrorView,
> {
    if env.token is None {
        Err(ConfigErrorView::TokenMissing)
    } else if is_blank(env.token->0) {
        Err(ConfigErrorView::TokenEmpty)
    } else if non_blank(env.allowlist) is Some && allowlist_json is None {
        Err(ConfigErrorView::AllowlistNotJson(env.allowlist->0))
    } else if numeric_var(env.interval_ms, 1500) is None {
        Err(ConfigErrorView::NotAnInteger(EnvVar::IntervalMs, env.interval_ms->0))
    } else if env.offset_path is None {
        Err(ConfigErrorView::OffsetPathMissing)
    } else if is_blank(env.offset_path->0) {
        Err(ConfigErrorView::OffsetPathEmpty)
    } else if numeric_var(env.bridge_timeout_ms, 30_000) is None {
        Err(ConfigErrorView::NotAnInteger(EnvVar::BridgeTimeoutMs, env.bridge_timeout_ms->0))
    } else if numeric_var(env.whisper_timeout_ms, 60_000) is None {
        Err(ConfigErrorView::NotAnInteger(EnvVar::WhisperTimeoutMs, env.whisper_timeout_ms->0))
    } else {
        Ok(
            PluginConfigView {
                token: env.token->0,
                polling: PollingView {
                    enabled: true,
                    interval_ms: numeric_var(env.interval_ms, 1500)->0,
                    offset_path: env.offset_path,
                },
                allowlist: if non_blank(env.allowlist) is Some {
                    allowlist_json->0
                } else {
                    Seq::empty()
                },
                auto_transcribe: AutoTranscribeView {
                    enabled: switched_on(env.auto_transcribe),
                    command: match env.whisper_command {
                        Some(c) => c,
                        None => "./extensions/openai-whisper/target/release/openai-whisper"@,
                    },
                    timeout_ms: numeric_var(env.whisper_timeout_ms, 60_000)->0,
                    language: non_blank(env.whisper_language),
                },
                bridge_timeout_ms: numeric_var(env.bridge_timeout_ms, 30_000)->0,
                instance: non_blank(env.instance),
                allow_agents: Seq::empty(),
            },
        )
    }
}

pub open spec fn config_result_view(r: Result<TelegramPluginConfig, ConfigError>) -> Result<
    PluginConfigView,
    ConfigErrorView,
> {
    match r {
        Ok(c) => Ok(c@),
        Err(e) => Err(e@),
    }
}

pub open spec fn opt_ids(o: Option<Vec<i64>>) -> Option<Seq<i64>> {
    match o {
        Some(v) => Some(v@),
        None => None,
    }
}

/// Names what `serde_json::from_str::<Vec<i64>>` gives for a text: the
/// chat ids, or `None` where the text is not a JSON array of `i64`.
pub uninterp spec fn json_i64_array(text: Seq<char>) -> Option<Seq<i64>>;

/// `serde_json::from_str::<Vec<i64>>(text).ok()`. The contract claims
/// only that the outcome is a function of the text alone, named
/// [`json_i64_array`]; which texts parse is left to serde_json.
#[verifier::external_body]
fn parse_json_i64_array(text: &str) -> (r: Option<Vec<i64>>)
    ensures
        opt_ids(r) == json_i64_array(text@),
{
    serde_json::from_str::<Vec<i64>>(text).ok()
}

/// What parsing the allowlist var would give, where the var is set and
/// not blank; `None` elsewhere.
pub open spec fn allowlist_parse(env: EnvView) -> Option<Seq<i64>> {
    match non_blank(env.allowlist) {
        Some(s) => json_i64_array(s),
        None => None,
    }
}

/// Builds a [`TelegramPluginConfig`] from the daemon-supplied env vars.
/// Fails with an operator-readable message on the first missing or
/// malformed value.
pub fn telegram_config_from_env(env: &EnvVars) -> (r: Result<TelegramPluginConfig, ConfigError>)
    ensures
        config_result_view(r) == config_from_env_spec(env@, allowlist_parse(env@)),
{
    let parsed = match &env.allowlist {
        Some(s) => if blank(s.as_str()) {
            None
        } else {
            parse_json_i64_array(s.as_str())
        },
        None => None,
    };
    config_from_env_parts(env, parsed)
}

/// [`telegram_config_from_env`] once the allowlist var has been parsed:
/// `allowlist_json` holds what parsing it gave.
pub fn config_from_env_parts(env: &EnvVars, allowlist_json: Option<Vec<i64>>) -> (r: Result<
    TelegramPluginConfig,
    ConfigError,
>)
    ensures
        config_result_view(r) == config_from_env_spec(env@, opt_ids(allowlist_json)),
{
    let token = match &env.token {
        Some(t) => t,
        None => {
            return Err(ConfigError::TokenMissing);
        },
    };
    if blank(token.as_str()) {
        return Err(ConfigError::TokenEmpty);
    }
    let instance = optional_value(&env.instance);
    let allowlist = parse_allowlist(&env.allowlist, allowlist_json)?;
    let polling_interval_ms = parse_u64_var(EnvVar::IntervalMs, &env.interval_ms, 1500)?;
    let offset_path = match &env.offset_path {
        Some(p) => p,
        None => {
            return Err(ConfigError::OffsetPathMissing);
        },
    };
    if blank(offset_path.as_str()) {
        return Err(ConfigError::OffsetPathEmpty);
    }
    let bridge_timeout_ms = parse_u64_var(EnvVar::BridgeTimeoutMs, &env.bridge_timeout_ms, 30_000)?;
    let auto_transcribe = parse_auto_transcribe(env)?;
    let r = TelegramPluginConfig {
        token: token.clone(),
        polling: TelegramPollingConfig {
            enabled: true,
            interval_ms: polling_interval_ms,
            offset_path: Some(offset_path.clone()),
        },
        allowlist,
        auto_transcribe,
        bridge_timeout_ms,
        instance,
        allow_agents: Vec::new(),
    };
    assert(r@.allow_agents =~= Seq::<Seq<char>>::empty());
    let ghost expected = config_from_env_spec(env@, opt_ids(allowlist_json));
    assert(expected is Ok);
    assert(r@.token == expected->Ok_0.token);
    assert(r@.polling == expected->Ok_0.polling);
    assert(r@.allowlist == expected->Ok_0.allowlist);
    assert(r@.auto_transcribe == expected->Ok_0.auto_transcribe);
    assert(r@.bridge_timeout_ms == expected->Ok_0.bridge_timeout_ms);
    assert(r@.instance == expected->Ok_0.instance);
    Ok(r)
}

/// A var's value where it is set and not blank.
fn optional_value(v: &Option<String>) -> (r: Option<String>)
    ensures
        opt_str(r) == non_blank(opt_str(*v)),
{
    match v {
        Some(s) => if blank(s.as_str()) {
            None
        } else {
            Some(s.clone())
        },
        None => None,
    }
}

/// A numeric var, or `default` where it is unset or blank.
pub fn parse_u64_var(var: EnvVar, value: &Option<String>, default: u64) -> (r: Result<u64, ConfigError>)
    ensures
        r matches Ok(n) ==> numeric_var(opt_str(*value), default) == Some(n),
        r matches Err(e) ==> numeric_var(opt_str(*value), default) is None && e@
            == ConfigErrorView::NotAnInteger(var, opt_str(*value)->0),
{
    match value {
        Some(s) => {
            if blank(s.as_str()) {
                Ok(default)
            } else {
                let cs = chars_of(s.as_str());
                let t = trimmed(&cs);
                match parse_u64_chars(&t) {
                    Ok(n) => Ok(n),
                    Err(_) => Err(ConfigError::NotAnInteger(var, s.clone())),
                }
            }
        },
        None => Ok(default),
    }
}

/// The allowlist var: unset or blank allows every chat; otherwise
/// `parsed` is what parsing it as a JSON array of `i64` gave.
pub fn parse_allowlist(value: &Option<String>, parsed: Option<Vec<i64>>) -> (r: Result<
    TelegramAllowlistConfig,
    ConfigError,
>)
    ensures
        non_blank(opt_str(*value)) is None ==> (r matches Ok(a) && a@.len() == 0),
        non_blank(opt_str(*value)) is Some ==> match parsed {
            Some(ids) => (r matches Ok(a) && a@ == ids@),
            None => (r matches Err(e) && e@ == ConfigErrorView::AllowlistNotJson(
                opt_str(*value)->0,
            )),
        },
{
    match value {
        Some(s) => {
            if blank(s.as_str()) {
                Ok(TelegramAllowlistConfig { chat_ids: Vec::new() })
            } else {
                match parsed {
                    Some(chat_ids) => Ok(TelegramAllowlistConfig { chat_ids }),
                    None => Err(ConfigError::AllowlistNotJson(s.clone())),
                }
            }
        },
        None => Ok(TelegramAllowlistConfig { chat_ids: Vec::new() }),
    }
}

/// The transcription section from its env vars.
pub fn parse_auto_transcribe(env: &EnvVars) -> (r: Result<TelegramAutoTranscribeConfig, ConfigError>)
    ensures
        r matches Ok(a) ==> numeric_var(env@.whisper_timeout_ms, 60_000) == Some(a@.timeout_ms)
            && a@.enabled == switched_on(env@.auto_transcribe) && a@.command == match env@.whisper_command {
                Some(c) => c,
                None => "./extensions/openai-whisper/target/release/openai-whisper"@,
            } && a@.language == non_blank(env@.whisper_language),
        r matches Err(e) ==> numeric_var(env@.whisper_timeout_ms, 60_000) is None && e@
            == ConfigErrorView::NotAnInteger(EnvVar::WhisperTimeoutMs, env@.whisper_timeout_ms->0),
{
    let enabled = match &env.auto_transcribe {
        Some(s) => trimmed_lowercase_is(s.as_str(), "1") || trimmed_lowercase_is(s.as_str(), "true")
            || trimmed_lowercase_is(s.as_str(), "yes"),
        None => false,
    };
    let command = match &env.whisper_command {
        Some(c) => c.clone(),
        None => "./extensions/openai-whisper/target/release/openai-whisper".to_string(),
    };
    let timeout_ms = parse_u64_var(EnvVar::WhisperTimeoutMs, &env.whisper_timeout_ms, 60_000)?;
    let language = optional_value(&env.whisper_language);
    Ok(TelegramAutoTranscribeConfig { enabled, command, timeout_ms, language })
}

/// Transcription is switched on exactly when the auto-transcribe var,
/// trimmed and ASCII-lowercased, is `1`, `true` or `yes`: any other value
/// (`false`, `0`, `off`, blank ...) and an unset var leave it off.
pub proof fn lemma_auto_transcribe_words(env: EnvView, allowlist_json: Option<Seq<i64>>)
    ensures
        config_from_env_spec(env, allowlist_json) matches Ok(c) ==> (c.auto_transcribe.enabled <==> (
        env.auto_transcribe is Some && (ascii_lowercase(trim(env.auto_transcribe->0)) == "1"@
            || ascii_lowercase(trim(env.auto_transcribe->0)) == "true"@ || ascii_lowercase(
            trim(env.auto_transcribe->0),
        ) == "yes"@))),
        env.auto_transcribe is None ==> (config_from_env_spec(env, allowlist_json) matches Ok(c)
            ==> !c.auto_transcribe.enabled),
{
}

/// The token comes first: without it nothing else is read, and a blank
/// one is refused. A configuration that is made carries the token and the
/// offset path as given, always polls, leaves `allow_agents` empty, and
/// takes the documented defaults for what is unset: 1500 ms polling,
/// 30000 ms bridge timeout, 60000 ms whisper timeout, the bundled whisper
/// command, no allowlist, no instance, no language.
pub proof fn lemma_env_rules(env: EnvView, allowlist_json: Option<Seq<i64>>)
    ensures
        env.token is None ==> config_from_env_spec(env, allowlist_json) == Err::<
            PluginConfigView,
            ConfigErrorView,
        >(ConfigErrorView::TokenMissing),
        env.token matches Some(t) && is_blank(t) ==> config_from_env_spec(env, allowlist_json) == Err::<
            PluginConfigView,
            ConfigErrorView,
        >(ConfigErrorView::TokenEmpty),
        config_from_env_spec(env, allowlist_json) matches Ok(c) ==> {
            &&& env.token == Some(c.token) && !is_blank(c.token)
            &&& env.offset_path is Some && c.polling.offset_path == env.offset_path
                && !is_blank(env.offset_path->0)
            &&& c.polling.enabled
            &&& c.allow_agents.len() == 0
            &&& env.interval_ms is None ==> c.polling.interval_ms == 1500
            &&& env.bridge_timeout_ms is None ==> c.bridge_timeout_ms == 30_000
            &&& env.whisper_timeout_ms is None ==> c.auto_transcribe.timeout_ms == 60_000
            &&& env.whisper_command is None ==> c.auto_transcribe.command
                == "./extensions/openai-whisper/target/release/openai-whisper"@
            &&& env.whisper_command matches Some(w) ==> c.auto_transcribe.command == w
            &&& env.allowlist is None ==> c.allowlist.len() == 0
            &&& env.instance is None ==> c.instance is None
            &&& env.instance matches Some(i) ==> c.instance == if is_blank(i) {
                None
            } else {
                Some(i)
            }
            &&& env.whisper_language is None ==> c.auto_transcribe.language is None
            &&& env.whisper_language is Some ==> c.auto_transcribe.language == if is_blank(
                env.whisper_language->0,
            ) {
                None
            } else {
                env.whisper_language
            }
            &&& (env.interval_ms is Some && is_blank(env.interval_ms->0)) ==> c.polling.interval_ms == 1500
            &&& (env.bridge_timeout_ms is Some && is_blank(env.bridge_timeout_ms->0)) ==> c.bridge_timeout_ms
                == 30_000
            &&& (env.whisper_timeout_ms is Some && is_blank(env.whisper_timeout_ms->0))
                ==> c.auto_transcribe.timeout_ms == 60_000
            &&& (env.allowlist is Some && is_blank(env.allowlist->0)) ==> c.allowlist.len() == 0
            &&& (env.allowlist is Some && !is_blank(env.allowlist->0)) ==> allowlist_json == Some(
                c.allowlist,
            )
        },
        env.token is Some && !is_blank(env.token->0) && env.allowlist is Some && !is_blank(
            env.allowlist->0,
        ) && allowlist_json is None ==> config_from_env_spec(env, allowlist_json) == Err::<
            PluginConfigView,
            ConfigErrorView,
        >(ConfigErrorView::AllowlistNotJson(env.allowlist->0)),
        env.interval_ms is Some && !is_blank(env.interval_ms->0) && parse_u64(trim(env.interval_ms->0)) is Ok
            ==> (config_from_env_spec(env, allowlist_json) matches Ok(c) ==> c.polling.interval_ms
            == parse_u64(trim(env.interval_ms->0))->Ok_0),
        env.interval_ms is Some && !is_blank(env.interval_ms->0) && parse_u64(trim(env.interval_ms->0)) is Err
            && env.token is Some && !is_blank(env.token->0) && (non_blank(env.allowlist) is None
            || allowlist_json is Some) ==> config_from_env_spec(env, allowlist_json) == Err::<
            PluginConfigView,
            ConfigErrorView,
        >(ConfigErrorView::NotAnInteger(EnvVar::IntervalMs, env.interval_ms->0)),
{
}

/// Every error message starts with the name of the var at fault.
pub proof fn lemma_errors_name_the_var(e: ConfigErrorView)
    ensures
        has_prefix(
            config_error_text(e),
            match e {
                ConfigErrorView::TokenMissing | ConfigErrorView::TokenEmpty => "NEXO_PLUGIN_TELEGRAM_TOKEN"@,
                ConfigErrorView::AllowlistNotJson(_) => "NEXO_PLUGIN_TELEGRAM_ALLOWLIST"@,
                ConfigErrorView::OffsetPathMissing | ConfigErrorView::OffsetPathEmpty => "NEXO_PLUGIN_TELEGRAM_OFFSET_PATH"@,
                ConfigErrorView::NotAnInteger(v, _) => match v {
                    EnvVar::IntervalMs => "NEXO_PLUGIN_TELEGRAM_INTERVAL_MS"@,
                    EnvVar::BridgeTimeoutMs => "NEXO_PLUGIN_TELEGRAM_BRIDGE_TIMEOUT_MS"@,
                    EnvVar::WhisperTimeoutMs => "NEXO_PLUGIN_TELEGRAM_WHISPER_TIMEOUT_MS"@,
                    _ => env_var_name(v),
                },
            },
        ),
{
    let t = config_error_text(e);
    let name = match e {
        ConfigErrorView::TokenMissing | ConfigErrorView::TokenEmpty => env_var_name(EnvVar::Token),
        ConfigErrorView::AllowlistNotJson(_) => env_var_name(EnvVar::Allowlist),
        ConfigErrorView::OffsetPathMissing | ConfigErrorView::OffsetPathEmpty => env_var_name(EnvVar::OffsetPath),
        ConfigErrorView::NotAnInteger(v, _) => env_var_name(v),
    };
    assert(t.subrange(0, name.len() as int) =~= name);
}

} // verus!
