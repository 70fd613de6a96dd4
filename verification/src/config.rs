//! The plugin's configuration: one bot account per
//! [`TelegramPluginConfig`], as the operator writes it in YAML (one list
//! entry per account) or as the daemon seeds it through env vars.
//!
//! Field defaults: a key that is absent from an entry takes the value of
//! the matching `default_*` function below; a whole section that is
//! absent (`polling`, `allowlist`, `auto_transcribe`) takes that
//! section's `Default`, whose fields are all zero, `false` or empty.

use vstd::prelude::*;

verus! {

broadcast use vstd::string::group_string_axioms;

/// One bot account.
#[derive(Clone, Debug)]
pub struct TelegramPluginConfig {
    pub token: String,
    pub polling: TelegramPollingConfig,
    pub allowlist: TelegramAllowlistConfig,
    pub auto_transcribe: TelegramAutoTranscribeConfig,
    /// How long the bridge waits for the agent's reply before firing a
    /// BridgeTimeout event.
    pub bridge_timeout_ms: u64,
    /// Optional instance label for multi-bot routing; absent means the
    /// legacy single-bot topic.
    pub instance: Option<String>,
    /// Agents permitted to publish from this bot; empty accepts any agent.
    pub allow_agents: Vec<String>,
}

/// Voice-note transcription through the whisper extension.
#[derive(Clone, Debug)]
pub struct TelegramAutoTranscribeConfig {
    pub enabled: bool,
    /// Path to the whisper extension binary (stdio JSON-RPC).
    pub command: String,
    /// How long to wait for a transcription before giving up.
    pub timeout_ms: u64,
    /// Forwarded verbatim to the whisper tool call.
    pub language: Option<String>,
}

/// The `getUpdates` long-poll loop.
#[derive(Clone, Debug)]
pub struct TelegramPollingConfig {
    pub enabled: bool,
    pub interval_ms: u64,
    /// Where the poller persists its `offset` between restarts.
    pub offset_path: Option<String>,
}

/// Chats the bot answers; empty answers every chat.
#[derive(Clone, Debug)]
pub struct TelegramAllowlistConfig {
    pub chat_ids: Vec<i64>,
}

pub struct PluginConfigView {
    pub token: Seq<char>,
    pub polling: PollingView,
    pub allowlist: Seq<i64>,
    pub auto_transcribe: AutoTranscribeView,
    pub bridge_timeout_ms: u64,
    pub instance: Option<Seq<char>>,
    pub allow_agents: Seq<Seq<char>>,
}

pub struct AutoTranscribeView {
    pub enabled: bool,
    pub command: Seq<char>,
    pub timeout_ms: u64,
    pub language: Option<Seq<char>>,
}

pub struct PollingView {
    pub enabled: bool,
    pub interval_ms: u64,
    pub offset_path: Option<Seq<char>>,
}

/// The view of an optional string.
pub open spec fn opt_str(o: Option<String>) -> Option<Seq<char>> {
    match o {
        Some(s) => Some(s@),
        None => None,
    }
}

/// The views of a list of strings.
pub open spec fn strs(v: Seq<String>) -> Seq<Seq<char>> {
    v.map_values(|s: String| s@)
}

impl View for TelegramPluginConfig {
    type V = PluginConfigView;

    open spec fn view(&self) -> PluginConfigView {
        PluginConfigView {
            token: self.token@,
            polling: self.polling@,
            allowlist: self.allowlist@,
            auto_transcribe: self.auto_transcribe@,
            bridge_timeout_ms: self.bridge_timeout_ms,
            instance: opt_str(self.instance),
            allow_agents: strs(self.allow_agents@),
        }
    }
}

impl View for TelegramAutoTranscribeConfig {
    type V = AutoTranscribeView;

    open spec fn view(&self) -> AutoTranscribeView {
        AutoTranscribeView {
            enabled: self.enabled,
            command: self.command@,
            timeout_ms: self.timeout_ms,
            language: opt_str(self.language),
        }
    }
}

impl View for TelegramPollingConfig {
    type V = PollingView;

    open spec fn view(&self) -> PollingView {
        PollingView {
            enabled: self.enabled,
            interval_ms: self.interval_ms,
            offset_path: opt_str(self.offset_path),
        }
    }
}

impl View for TelegramAllowlistConfig {
    type V = Seq<i64>;

    open spec fn view(&self) -> Seq<i64> {
        self.chat_ids@
    }
}

/// Default of `bridge_timeout_ms` when the key is absent.
pub fn default_bridge_timeout_ms() -> (r: u64)
    ensures
        r == 120_000,
{
    120_000
}

/// Default of `auto_transcribe.command` when the key is absent.
pub fn default_whisper_command() -> (r: String)
    ensures
        r@ == "./extensions/openai-whisper/target/release/openai-whisper"@,
{
    "./extensions/openai-whisper/target/release/openai-whisper".to_string()
}

/// Default of `auto_transcribe.timeout_ms` when the key is absent.
pub fn default_whisper_timeout() -> (r: u64)
    ensures
        r == 60_000,
{
    60_000
}

/// Default of `polling.enabled` when the key is absent.
pub fn default_polling_enabled() -> (r: bool)
    ensures
        r,
{
    true
}

/// Default of `polling.interval_ms` when the key is absent.
pub fn default_polling_interval() -> (r: u64)
    ensures
        r == 25_000,
{
    25_000
}

impl Default for TelegramAutoTranscribeConfig {
    fn default() -> (r: Self)
        ensures
            !r@.enabled,
            r@.command.len() == 0,
            r@.timeout_ms == 0,
            r@.language is None,
    {
        TelegramAutoTranscribeConfig {
            enabled: false,
            command: String::new(),
            timeout_ms: 0,
            language: None,
        }
    }
}

impl Default for TelegramPollingConfig {
    fn default() -> (r: Self)
        ensures
            !r@.enabled,
            r@.interval_ms == 0,
            r@.offset_path is None,
    {
        TelegramPollingConfig { enabled: false, interval_ms: 0, offset_path: None }
    }
}

impl Default for TelegramAllowlistConfig {
    fn default() -> (r: Self)
        ensures
            r@.len() == 0,
    {
        TelegramAllowlistConfig { chat_ids: Vec::new() }
    }
}

/// A copy of an optional string.
fn copy_opt_str(o: &Option<String>) -> (r: Option<String>)
    ensures
        opt_str(r) == opt_str(*o),
{
    match o {
        Some(s) => Some(s.clone()),
        None => None,
    }
}

/// A copy of a list of strings.
fn copy_strs(v: &Vec<String>) -> (r: Vec<String>)
    ensures
        strs(r@) == strs(v@),
{
    let mut r: Vec<String> = Vec::new();
    let mut i: usize = 0;
    while i < v.len()
        invariant
            0 <= i <= v@.len(),
            r@.len() == i,
            forall|j: int| 0 <= j < i ==> r@[j]@ == v@[j]@,
        decreases v@.len() - i,
    {
        let c = v[i].clone();
        r.push(c);
        i = i + 1;
    }
    assert(strs(r@) =~= strs(v@));
    r
}

/// A copy of a list of chat ids.
fn copy_ids(v: &Vec<i64>) -> (r: Vec<i64>)
    ensures
        r@ == v@,
{
    let mut r: Vec<i64> = Vec::new();
    let mut i: usize = 0;
    while i < v.len()
        invariant
            0 <= i <= v@.len(),
            r@ == v@.take(i as int),
        decreases v@.len() - i,
    {
        r.push(v[i]);
        assert(r@ =~= v@.take(i + 1));
        i = i + 1;
    }
    assert(v@.take(v@.len() as int) =~= v@);
    r
}

impl TelegramPluginConfig {
    /// A copy of this account's configuration.
    pub fn duplicate(&self) -> (r: TelegramPluginConfig)
        ensures
            r@ == self@,
    {
        TelegramPluginConfig {
            token: self.token.clone(),
            polling: TelegramPollingConfig {
                enabled: self.polling.enabled,
                interval_ms: self.polling.interval_ms,
                offset_path: copy_opt_str(&self.polling.offset_path),
            },
            allowlist: TelegramAllowlistConfig { chat_ids: copy_ids(&self.allowlist.chat_ids) },
            auto_transcribe: TelegramAutoTranscribeConfig {
                enabled: self.auto_transcribe.enabled,
                command: self.auto_transcribe.command.clone(),
                timeout_ms: self.auto_transcribe.timeout_ms,
                language: copy_opt_str(&self.auto_transcribe.language),
            },
            bridge_timeout_ms: self.bridge_timeout_ms,
            instance: copy_opt_str(&self.instance),
            allow_agents: copy_strs(&self.allow_agents),
        }
    }
}

} // verus!
