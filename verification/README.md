# Money Like Water

A Windows taskbar meter of AI usage quotas and balances. The core of the
application is a library verified with Verus; the desktop shell around it
is ordinary Rust.

## Layout

- `src/` — the verified library.
  - `config` — data-source settings, their defaults and presets, and the
    migration of stored settings.
  - `json`, `text`, `decimal` — JSON documents as the library reads them,
    the value-path language (`data.items[0].balance`,
    `infos[currency=CNY].total`), and character-level string helpers.
  - `http_source` — endpoint candidates, URLs, the decisions of a query
    over HTTP, window rules and transform results, and the snapshots they
    produce.
  - `codex`, `chatgpt` — the Codex connector's JSON-RPC replies and the
    ChatGPT usage snapshot built from a session.
  - `sources` — which source answers a query, HTTP query plans, and the
    fallback on the last successful reading.
  - `providers` — query plans of the legacy AI-MEMBER and DeepSeek
    settings.
  - `meter` — where the meter sits on the taskbar.
  - `usage` — usage snapshots, meter items and the tray tooltip.
  - `clock` — RFC 3339 timestamps from `chrono`.
- `tests/` — tests of the library on concrete values.
- `app/` — the Tauri shell: settings files, processes, HTTP requests,
  floating-point readings, the tray and the Windows taskbar.
