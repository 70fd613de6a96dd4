//! The account list the daemon delivers through `plugin.configure`, the
//! credential-store handlers that read it, and the choice between it and
//! the env-var configuration.

use vstd::prelude::*;
use crate::config::{PluginConfigView, TelegramPluginConfig, strs};
use crate::env_config::{
    EnvVars, allowlist_parse, config_error_text, config_from_env_spec, telegram_config_from_env,
};
use crate::subprocess_dispatch::{ToolError, ToolErrorView};
use crate::text::{concat, str_eq};

verus! {

broadcast use vstd::string::group_string_axioms;

/// The views of a list of accounts.
pub open spec fn configs_view(v: Seq<TelegramPluginConfig>) -> Seq<PluginConfigView> {
    v.map_values(|c: TelegramPluginConfig| c@)
}

/// The configured accounts: none until the first `plugin.configure`,
/// then the list that the latest one delivered (a hot reload replaces
/// it whole).
pub struct ConfiguredState {
    configs: Option<Vec<TelegramPluginConfig>>,
}

impl View for ConfiguredState {
    type V = Option<Seq<PluginConfigView>>;

    closed spec fn view(&self) -> Option<Seq<PluginConfigView>> {
        match self.configs {
            Some(v) => Some(configs_view(v@)),
            None => None,
        }
    }
}

impl ConfiguredState {
    /// No configuration delivered yet.
    pub fn new() -> (s: ConfiguredState)
        ensures
            s@ is None,
    {
        ConfiguredState { configs: None }
    }

    /// Stores the accounts a `plugin.configure` delivered, replacing any
    /// earlier list.
    pub fn configure(&mut self, configs: Vec<TelegramPluginConfig>)
        ensures
            final(self)@ == Some(configs_view(configs@)),
    {
        self.configs = Some(configs);
    }

    /// Forgets the delivered configuration.
    pub fn clear(&mut self)
        ensures
            final(self)@ is None,
    {
        self.configs = None;
    }

    /// The delivered accounts, if any.
    pub fn configs(&self) -> (r: Option<&Vec<TelegramPluginConfig>>)
        ensures
            r matches Some(v) ==> self@ == Some(configs_view(v@)),
            r is None ==> self@ is None,
    {
        match &self.configs {
            Some(v) => Some(v),
            None => None,
        }
    }
}

/// The instance labels of the accounts that have one, in order.
pub open spec fn instances(cs: Seq<PluginConfigView>) -> Seq<Seq<char>>
    decreases cs.len(),
{
    if cs.len() == 0 {
        Seq::empty()
    } else {
        let rest = instances(cs.drop_last());
        match cs.last().instance {
            Some(i) => rest.push(i),
            None => rest,
        }
    }
}

/// The accounts `plugin.credentials.list` reports.
pub open spec fn listed_accounts(state: Option<Seq<PluginConfigView>>) -> Seq<Seq<char>> {
    match state {
        Some(cs) => instances(cs),
        None => Seq::empty(),
    }
}

/// `plugin.credentials.list`: the instance labels of the configured
/// accounts.
pub fn credentials_list(state: &ConfiguredState) -> (r: Vec<String>)
    ensures
        strs(r@) == listed_accounts(state@),
{
    let mut r: Vec<String> = Vec::new();
    match state.configs() {
        Some(cs) => {
            let ghost all = configs_view(cs@);
            let mut i: usize = 0;
            assert(all.take(0) =~= Seq::<PluginConfigView>::empty());
            while i < cs.len()
                invariant
                    all == configs_view(cs@),
                    0 <= i <= cs@.len(),
                    strs(r@) == instances(all.take(i as int)),
                decreases cs@.len() - i,
            {
                assert(all.take(i + 1).drop_last() =~= all.take(i as int));
                let ghost before = r@;
                match &cs[i].instance {
                    Some(name) => {
                        r.push(name.clone());
                        assert(strs(r@) =~= strs(before).push(name@));
                    },
                    None => {},
                }
                i = i + 1;
            }
            assert(all.take(cs@.len() as int) =~= all);
        },
        None => {
            assert(strs(r@) =~= Seq::<Seq<char>>::empty());
        },
    }
    r
}

/// Why a credential request is refused.
#[derive(Clone, Copy, Debug, PartialEq, Eq, Structural)]
pub enum CredentialError {
    /// No configured account has that instance label.
    NotFound,
    /// The account's `allow_agents` does not name the agent.
    NotPermitted,
}

impl CredentialError {
    /// The error text the daemon expects.
    pub fn code(&self) -> (r: &'static str)
        ensures
            *self == CredentialError::NotFound ==> r@ == "not_found"@,
            *self == CredentialError::NotPermitted ==> r@ == "not_permitted"@,
    {
        match self {
            CredentialError::NotFound => "not_found",
            CredentialError::NotPermitted => "not_permitted",
        }
    }
}

/// The position of the first account labelled `account`.
pub open spec fn account_index(cs: Seq<PluginConfigView>, account: Seq<char>) -> Option<int>
    decreases cs.len(),
{
    if cs.len() == 0 {
        None
    } else if cs[0].instance == Some(account) {
        Some(0)
    } else {
        match account_index(cs.drop_first(), account) {
            Some(i) => Some(i + 1),
            None => None,
        }
    }
}

/// The first configured account labelled `account`.
pub open spec fn find_account(state: Option<Seq<PluginConfigView>>, account: Seq<char>) -> Option<
    PluginConfigView,
> {
    match state {
        Some(cs) => match account_index(cs, account) {
            Some(i) => Some(cs[i]),
            None => None,
        },
        None => None,
    }
}

/// Whether an account lets `agent` publish: an empty `allow_agents`
/// lets every agent.
pub open spec fn agent_allowed(c: PluginConfigView, agent: Seq<char>) -> bool {
    c.allow_agents.len() == 0 || c.allow_agents.contains(agent)
}

proof fn lemma_account_index(cs: Seq<PluginConfigView>, account: Seq<char>, i: int)
    requires
        0 <= i <= cs.len(),
        forall|j: int| 0 <= j < i ==> cs[j].instance != Some(account),
    ensures
        i < cs.len() && cs[i].instance == Some(account) ==> account_index(cs, account) == Some(i),
        i == cs.len() ==> account_index(cs, account) is None,
    decreases i,
{
    if i > 0 {
        lemma_account_index(cs.drop_first(), account, i - 1);
    }
}

/// The position of the first account labelled `account`.
fn account_position(cs: &Vec<TelegramPluginConfig>, account: &str) -> (r: Option<usize>)
    ensures
        r matches Some(i) ==> i < cs@.len() && account_index(configs_view(cs@), account@) == Some(
            i as int,
        ),
        r is None ==> account_index(configs_view(cs@), account@) is None,
{
    let ghost all = configs_view(cs@);
    let mut i: usize = 0;
    while i < cs.len()
        invariant
            all == configs_view(cs@),
            0 <= i <= cs@.len(),
            forall|j: int| 0 <= j < i ==> all[j].instance != Some(account@),
        decreases cs@.len() - i,
    {
        let hit = match &cs[i].instance {
            Some(name) => str_eq(name.as_str(), account),
            None => false,
        };
        if hit {
            proof {
                lemma_account_index(all, account@, i as int);
            }
            return Some(i);
        }
        i = i + 1;
    }
    proof {
        lemma_account_index(all, account@, i as int);
    }
    None
}

/// Whether `s` is one of the strings of `v`.
fn contains_str(v: &Vec<String>, s: &str) -> (r: bool)
    ensures
        r == strs(v@).contains(s@),
{
    let mut k: usize = 0;
    while k < v.len()
        invariant
            0 <= k <= v@.len(),
            forall|j: int| 0 <= j < k ==> v@[j]@ != s@,
        decreases v@.len() - k,
    {
        if str_eq(v[k].as_str(), s) {
            assert(strs(v@)[k as int] == s@);
            return true;
        }
        k = k + 1;
    }
    assert(!strs(v@).contains(s@));
    false
}

/// `plugin.credentials.issue`: the account must exist and let the agent
/// publish.
pub fn credentials_issue(state: &ConfiguredState, account_id: &str, agent_id: &str) -> (r: Result<
    (),
    CredentialError,
>)
    ensures
        find_account(state@, account_id@) is None ==> r == Err::<(), CredentialError>(
            CredentialError::NotFound,
        ),
        find_account(state@, account_id@) matches Some(c) ==> (r is Ok <==> agent_allowed(
            c,
            agent_id@,
        )),
        r is Err ==> find_account(state@, account_id@) is None || r == Err::<(), CredentialError>(
            CredentialError::NotPermitted,
        ),
{
    let cs = match state.configs() {
        Some(cs) => cs,
        None => {
            return Err(CredentialError::NotFound);
        },
    };
    let i = match account_position(cs, account_id) {
        Some(i) => i,
        None => {
            return Err(CredentialError::NotFound);
        },
    };
    let agents = &cs[i].allow_agents;
    assert(configs_view(cs@)[i as int].allow_agents == strs(agents@));
    if agents.len() == 0 || contains_str(agents, agent_id) {
        return Ok(());
    }
    Err(CredentialError::NotPermitted)
}

/// `plugin.credentials.resolve_bytes`: the account whose configuration
/// is handed out (serialised as JSON by the caller).
pub fn credentials_resolve<'a>(state: &'a ConfiguredState, account_id: &str) -> (r: Result<
    &'a TelegramPluginConfig,
    CredentialError,
>)
    ensures
        r matches Ok(c) ==> find_account(state@, account_id@) == Some(c@),
        r is Err ==> find_account(state@, account_id@) is None && r == Err::<
            &TelegramPluginConfig,
            CredentialError,
        >(CredentialError::NotFound),
{
    let cs = match state.configs() {
        Some(cs) => cs,
        None => {
            return Err(CredentialError::NotFound);
        },
    };
    match account_position(cs, account_id) {
        Some(i) => Ok(&cs[i]),
        None => Err(CredentialError::NotFound),
    }
}

/// The configuration the plugin boots with: the first delivered account
/// where `plugin.configure` delivered a list, else the env vars.
pub open spec fn chosen_config(state: Option<Seq<PluginConfigView>>, env: crate::env_config::EnvView) -> Result<
    PluginConfigView,
    ToolErrorView,
> {
    match state {
        Some(cs) => if cs.len() > 0 {
            Ok(cs[0])
        } else {
            Err(ToolErrorView::ArgumentInvalid("configured array delivered empty Vec"@))
        },
        None => match config_from_env_spec(env, allowlist_parse(env)) {
            Ok(c) => Ok(c),
            Err(e) => Err(ToolErrorView::ArgumentInvalid("env config: "@ + config_error_text(e))),
        },
    }
}

pub open spec fn chosen_view(r: Result<TelegramPluginConfig, ToolError>) -> Result<
    PluginConfigView,
    ToolErrorView,
> {
    match r {
        Ok(c) => Ok(c@),
        Err(e) => Err(e@),
    }
}

/// Picks the configuration the plugin boots with: a delivered
/// `plugin.configure` list wins over the env vars, which are read only
/// when no list was delivered.
pub fn shared_plugin_config(state: &ConfiguredState, env: &EnvVars) -> (r: Result<
    TelegramPluginConfig,
    ToolError,
>)
    ensures
        chosen_view(r) == chosen_config(state@, env@),
{
    match state.configs() {
        Some(cs) => {
            if cs.len() > 0 {
                Ok(cs[0].duplicate())
            } else {
                Err(ToolError::ArgumentInvalid("configured array delivered empty Vec".to_string()))
            }
        },
        None => match telegram_config_from_env(env) {
            Ok(c) => Ok(c),
            Err(e) => {
                let m = e.message();
                Err(ToolError::ArgumentInvalid(concat("env config: ", m.as_str())))
            },
        },
    }
}

/// Once `plugin.configure` has delivered a non-empty list, the plugin
/// boots with its first account whatever the env vars hold.
pub proof fn lemma_delivered_list_wins(
    cs: Seq<PluginConfigView>,
    env: crate::env_config::EnvView,
    other_env: crate::env_config::EnvView,
)
    requires
        cs.len() > 0,
    ensures
        chosen_config(Some(cs), env) == Ok::<PluginConfigView, ToolErrorView>(cs[0]),
        chosen_config(Some(cs), env) == chosen_config(Some(cs), other_env),
{
}

/// What a `tool.invoke` finds: the plugin already running with the
/// configuration it booted with, or the configuration to boot it with.
#[derive(Debug)]
pub enum PluginStart {
    Running(TelegramPluginConfig),
    Boot(TelegramPluginConfig),
}

pub enum PluginStartView {
    Running(PluginConfigView),
    Boot(PluginConfigView),
}

impl View for PluginStart {
    type V = PluginStartView;

    open spec fn view(&self) -> PluginStartView {
        match self {
            PluginStart::Running(c) => PluginStartView::Running(c@),
            PluginStart::Boot(c) => PluginStartView::Boot(c@),
        }
    }
}

pub open spec fn start_view(r: Result<PluginStart, ToolError>) -> Result<PluginStartView, ToolErrorView> {
    match r {
        Ok(p) => Ok(p@),
        Err(e) => Err(e@),
    }
}

/// What a `tool.invoke` finds, given the configuration the plugin booted
/// with (if it has): once booted, that configuration, whatever the
/// delivered list and the env vars now hold; before, the configuration
/// they give.
pub open spec fn start_plan(
    booted: Option<PluginConfigView>,
    state: Option<Seq<PluginConfigView>>,
    env: crate::env_config::EnvView,
) -> Result<PluginStartView, ToolErrorView> {
    match booted {
        Some(c) => Ok(PluginStartView::Running(c)),
        None => match chosen_config(state, env) {
            Ok(c) => Ok(PluginStartView::Boot(c)),
            Err(e) => Err(e),
        },
    }
}

/// The booted configuration after a successful boot with `config`: the
/// first boot's stays.
pub open spec fn after_boot(booted: Option<PluginConfigView>, config: PluginConfigView) -> Option<
    PluginConfigView,
> {
    match booted {
        Some(c) => Some(c),
        None => Some(config),
    }
}

/// The process-wide plugin: nothing until its first successful boot,
/// then the configuration it booted with, for the life of the process. A
/// failed boot leaves nothing behind, so the next call tries afresh.
pub struct SharedPlugin {
    booted: Option<TelegramPluginConfig>,
}

impl View for SharedPlugin {
    type V = Option<PluginConfigView>;

    closed spec fn view(&self) -> Option<PluginConfigView> {
        match self.booted {
            Some(c) => Some(c@),
            None => None,
        }
    }
}

impl SharedPlugin {
    /// Not booted yet.
    pub fn new() -> (s: SharedPlugin)
        ensures
            s@ is None,
    {
        SharedPlugin { booted: None }
    }

    /// What a `tool.invoke` works with: the running plugin's
    /// configuration, without reading the delivered list or the env vars;
    /// or, before the first successful boot, the configuration to boot
    /// with ([`shared_plugin_config`]).
    pub fn start(&self, state: &ConfiguredState, env: &EnvVars) -> (r: Result<PluginStart, ToolError>)
        ensures
            start_view(r) == start_plan(self@, state@, env@),
    {
        match &self.booted {
            Some(c) => Ok(PluginStart::Running(c.duplicate())),
            None => match shared_plugin_config(state, env) {
                Ok(c) => Ok(PluginStart::Boot(c)),
                Err(e) => Err(e),
            },
        }
    }

    /// Records a successful boot with `config`. The first boot stays: a
    /// plugin that is already running keeps its configuration.
    pub fn booted_with(&mut self, config: TelegramPluginConfig)
        ensures
            final(self)@ == after_boot(old(self)@, config@),
    {
        if self.booted.is_none() {
            self.booted = Some(config);
        }
    }

    /// The configuration the plugin booted with, if it has.
    pub fn config(&self) -> (r: Option<&TelegramPluginConfig>)
        ensures
            r matches Some(c) ==> self@ == Some(c@),
            r is None ==> self@ is None,
    {
        match &self.booted {
            Some(c) => Some(c),
            None => None,
        }
    }
}

/// The plugin boots once: after a boot, every later call finds it
/// running with the configuration of the first boot, whatever the
/// delivered list and the env vars hold then, and a later boot does not
/// replace it.
pub proof fn lemma_plugin_boots_once(
    booted: Option<PluginConfigView>,
    c: PluginConfigView,
    other: PluginConfigView,
    state: Option<Seq<PluginConfigView>>,
    env: crate::env_config::EnvView,
)
    ensures
        after_boot(after_boot(booted, c), other) == after_boot(booted, c),
        booted is None ==> start_plan(after_boot(booted, c), state, env) == Ok::<
            PluginStartView,
            ToolErrorView,
        >(PluginStartView::Running(c)),
        booted matches Some(first) ==> start_plan(after_boot(booted, c), state, env) == Ok::<
            PluginStartView,
            ToolErrorView,
        >(PluginStartView::Running(first)),
{
}

proof fn lemma_account_index_meaning(cs: Seq<PluginConfigView>, account: Seq<char>)
    ensures
        account_index(cs, account) matches Some(i) ==> 0 <= i < cs.len() && cs[i].instance == Some(account)
            && forall|j: int| 0 <= j < i ==> #[trigger] cs[j].instance != Some(account),
        account_index(cs, account) is None ==> forall|j: int| 0 <= j < cs.len() ==> #[trigger] cs[j].instance
            != Some(account),
    decreases cs.len(),
{
    if cs.len() > 0 && cs[0].instance != Some(account) {
        lemma_account_index_meaning(cs.drop_first(), account);
        let rest = cs.drop_first();
        if account_index(rest, account) is Some {
            let i = account_index(rest, account)->0;
            assert forall|j: int| 0 <= j < i + 1 implies #[trigger] cs[j].instance != Some(account) by {
                if j > 0 {
                    assert(cs[j] == rest[j - 1]);
                }
            }
        } else {
            assert forall|j: int| 0 <= j < cs.len() implies #[trigger] cs[j].instance != Some(account) by {
                if j > 0 {
                    assert(cs[j] == rest[j - 1]);
                }
            }
        }
    }
}

/// A credential request names an account by its instance label: it gets
/// the first configured account with that label, and is not found when
/// no account has it (or nothing was delivered).
pub proof fn lemma_find_account_meaning(state: Option<Seq<PluginConfigView>>, account: Seq<char>)
    ensures
        find_account(state, account) matches Some(c) ==> exists|i: int|
            0 <= i < state->0.len() && state->0[i] == c && c.instance == Some(account) && (forall|j: int|
                0 <= j < i ==> #[trigger] state->0[j].instance != Some(account)),
        find_account(state, account) is None ==> state is None || forall|j: int|
            0 <= j < state->0.len() ==> #[trigger] state->0[j].instance != Some(account),
{
    if state is Some {
        lemma_account_index_meaning(state->0, account);
    }
}

/// An agent may use an account when the account's `allow_agents` is
/// empty or lists it, and only then.
pub proof fn lemma_agent_permission(c: PluginConfigView, agent: Seq<char>)
    ensures
        agent_allowed(c, agent) <==> (c.allow_agents.len() == 0 || exists|k: int|
            0 <= k < c.allow_agents.len() && c.allow_agents[k] == agent),
{
}

/// The listed accounts are the instance labels of the configured
/// accounts: a label is listed exactly when some account carries it, and
/// there are no more of them than accounts.
pub proof fn lemma_listed_accounts(cs: Seq<PluginConfigView>, s: Seq<char>)
    ensures
        instances(cs).contains(s) <==> exists|i: int| 0 <= i < cs.len() && cs[i].instance == Some(s),
        instances(cs).len() <= cs.len(),
        listed_accounts(None) == Seq::<Seq<char>>::empty(),
    decreases cs.len(),
{
    if cs.len() > 0 {
        let rest = cs.drop_last();
        lemma_listed_accounts(rest, s);
        if instances(cs).contains(s) {
            if cs.last().instance == Some(s) {
                assert(cs[cs.len() - 1].instance == Some(s));
            } else {
                let k = choose|k: int| 0 <= k < instances(cs).len() && instances(cs)[k] == s;
                if cs.last().instance is Some {
                    assert(k < instances(rest).len());
                    assert(instances(rest)[k] == s);
                }
                assert(instances(rest).contains(s));
                let i = choose|i: int| 0 <= i < rest.len() && rest[i].instance == Some(s);
                assert(cs[i] == rest[i]);
            }
        }
        if exists|i: int| 0 <= i < cs.len() && cs[i].instance == Some(s) {
            let i = choose|i: int| 0 <= i < cs.len() && cs[i].instance == Some(s);
            if i == cs.len() - 1 {
                assert(instances(cs)[instances(cs).len() - 1] == s);
            } else {
                assert(rest[i] == cs[i]);
                assert(instances(rest).contains(s));
                let k = choose|k: int| 0 <= k < instances(rest).len() && instances(rest)[k] == s;
                assert(instances(cs)[k] == s);
            }
        }
    }
}

/// Where no list was delivered the configuration comes from the env
/// vars, and an env failure is an invalid argument that quotes the env
/// error; a delivered empty list is refused.
pub proof fn lemma_config_sources(env: crate::env_config::EnvView)
    ensures
        chosen_config(Some(Seq::empty()), env) == Err::<PluginConfigView, ToolErrorView>(
            ToolErrorView::ArgumentInvalid("configured array delivered empty Vec"@),
        ),
        config_from_env_spec(env, allowlist_parse(env)) matches Ok(c) ==> chosen_config(None, env) == Ok::<
            PluginConfigView,
            ToolErrorView,
        >(c),
        config_from_env_spec(env, allowlist_parse(env)) matches Err(e) ==> chosen_config(None, env)
            == Err::<PluginConfigView, ToolErrorView>(
            ToolErrorView::ArgumentInvalid("env config: "@ + config_error_text(e)),
        ),
{
}

} // verus!
