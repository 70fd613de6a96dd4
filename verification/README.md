# nexo-plugin-telegram

Telegram bot channel plugin for the Nexo agent framework. The daemon runs
it as a subprocess that speaks JSON-RPC over stdio and routes messages
through broker topics.

The library under `src/` states what its functions do in `requires` /
`ensures` contracts and proves them; its few calls into `base64`,
`serde_json` and std stand behind small wrappers whose contracts are taken
as given.

- `config` — the per-account configuration and its field defaults.
- `env_config` — the configuration from the `NEXO_PLUGIN_TELEGRAM_*` env
  vars, with the exact error each missing or malformed var gives.
- `configured_state` — the account list `plugin.configure` delivers, the
  credential-store handlers (`list`, `issue`, `resolve_bytes`) and the
  choice between the delivered list and the env vars; the plugin boots
  once and is reused.
- `auto_discovery` — the broker request-reply handlers: pairing adapter,
  HTTP routes, admin RPC and metrics scrape.
- `subprocess_dispatch` — the six advertised `telegram_*` tools and the
  `tool.invoke` routing for them: argument checks, the Bot API call each tool makes, and the
  shaping of its result.
- `runtime` — the broker choice and the auto-discovery topics.
- `json`, `text` — the JSON value model and the string operations
  (trimming, integer parsing as `str::parse` does it) the contracts use.
- `standard_base64` — standard padded base64 as a function of the bytes,
  and the fact that a text encodes at most one byte sequence.

`app/` is the subprocess binary: the SDK's `PluginAdapter` loop, env and
file reading, broker connections, and the serde copies of the config
types. `tests/` exercises the library with the outside crates linked.
