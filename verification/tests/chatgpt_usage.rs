use money_like_water::chatgpt::{
    access_token_in, account_label, all_rate_limit_windows, auth_file_names, diagnostic_buckets,
    empty_windows, error_snapshot_at, map_snapshot, map_snapshot_at, map_window,
    number_like_to_string, pick_access_token, plan_label, rate_limit_windows,
    select_rate_limit_snapshot, snapshot_is_readable, sort_selected_window, timestamp_to_rfc3339,
    warnings_cut_cleanly, AuthFileRead,
};
use money_like_water::codex::{CodexError, CodexSnapshot};
use money_like_water::config::MeterSettings;
use money_like_water::json::{FloatReading, Json, JsonNumber, JsonText};
use money_like_water::usage::{ProviderUsageStatus, UsageWindow};

fn reading(f: f64) -> FloatReading {
    FloatReading { bits: f.to_bits(), rounded: f.round() as i64 }
}

fn conv(v: &serde_json::Value) -> Json {
    match v {
        serde_json::Value::Null => Json::Null,
        serde_json::Value::Bool(b) => Json::Bool(*b),
        serde_json::Value::Number(n) => Json::Number(JsonNumber {
            as_i64: n.as_i64(),
            as_u64: n.as_u64(),
            as_f64: reading(n.as_f64().unwrap_or(f64::NAN)),
        }),
        serde_json::Value::String(s) => Json::Text(JsonText {
            text: s.clone(),
            reading: s.parse::<f64>().ok().map(reading),
            trimmed_reading: s.trim().parse::<f64>().ok().map(reading),
        }),
        serde_json::Value::Array(a) => Json::Array(a.iter().map(conv).collect()),
        serde_json::Value::Object(m) => {
            Json::Object(m.iter().map(|(k, v)| (k.clone(), conv(v))).collect())
        }
    }
}

fn json(text: &str) -> Json {
    conv(&serde_json::from_str(text).unwrap())
}

fn session(account: &str, rate_limits: Option<&str>, usage: Option<&str>, warnings: Vec<String>) -> CodexSnapshot {
    CodexSnapshot {
        codex_path: "/usr/bin/codex".to_string(),
        initialize: json(r#"{"codexHome":"/home/u/.codex"}"#),
        account: json(account),
        rate_limits: rate_limits.map(json),
        usage: usage.map(json),
        warnings,
    }
}

fn settings_with(selected: Option<&str>) -> MeterSettings {
    let mut s = MeterSettings::default();
    s.selected_usage_window_id = selected.map(|x| x.to_string());
    s
}

const RATE_LIMITS: &str = r#"{
  "rateLimitsByLimitId": {
    "codex": {
      "limitId": "codex",
      "limitName": "Codex",
      "primary": {"usedPercent": 42.4, "windowDurationMins": 300, "resetsAt": 1700000000},
      "secondary": {"usedPercent": 120.0, "windowDurationMins": 10080},
      "credits": {"balance": "12.5"}
    },
    "gpt5": {
      "limitId": "gpt5",
      "limitName": "GPT-5",
      "primary": {"usedPercent": 10}
    }
  }
}"#;

#[test]
fn account_label_names_each_kind() {
    let chatgpt = json(r#"{"type":"chatgpt","email":"a@b.c"}"#);
    assert_eq!(account_label(&chatgpt), Some("a@b.c".to_string()));
    let no_mail = json(r#"{"type":"chatgpt"}"#);
    assert_eq!(account_label(&no_mail), Some("ChatGPT 账号".to_string()));
    assert_eq!(account_label(&json(r#"{"type":"apiKey"}"#)), Some("OpenAI API Key".to_string()));
    assert_eq!(account_label(&json(r#"{"type":"amazonBedrock"}"#)), Some("Amazon Bedrock".to_string()));
    assert_eq!(account_label(&json(r#"{"type":"other"}"#)), Some("AI 数据源账号".to_string()));
    assert_eq!(account_label(&json(r#"{}"#)), Some("AI 数据源账号".to_string()));
}

#[test]
fn plan_label_maps_known_plans() {
    assert_eq!(plan_label("free"), "Free");
    assert_eq!(plan_label("prolite"), "Pro Lite");
    assert_eq!(plan_label("unknown"), "未知");
    assert_eq!(plan_label("edu"), "Edu");
    assert_eq!(plan_label("custom-plan"), "custom-plan");
}

#[test]
fn map_window_rounds_and_clamps_the_used_share() {
    let v = json(r#"{"usedPercent": 42.6, "windowDurationMins": 300}"#);
    let w = map_window("codex", "primary", "主用量窗口", "Codex", &v).unwrap();
    assert_eq!(w.id, "codex-codex-primary");
    assert_eq!(w.used_percent, 43);
    assert_eq!(w.remaining_percent, 57);
    assert_eq!(w.limit_label, Some("Codex / 300 分钟".to_string()));
    assert_eq!(w.bucket_id, Some("codex".to_string()));
    assert_eq!(w.window_key, Some("primary".to_string()));
    assert_eq!(w.resets_at, None);

    let over = json(r#"{"usedPercent": 150}"#);
    let w = map_window("b", "secondary", "次用量窗口", "N", &over).unwrap();
    assert_eq!(w.used_percent, 100);
    assert_eq!(w.remaining_percent, 0);
    assert_eq!(w.limit_label, Some("N / 用量窗口".to_string()));

    let under = json(r#"{"usedPercent": -5}"#);
    assert_eq!(map_window("b", "k", "l", "n", &under).unwrap().used_percent, 0);

    let text = json(r#"{"usedPercent": "40"}"#);
    assert!(map_window("b", "k", "l", "n", &text).is_none());
    assert!(map_window("b", "k", "l", "n", &json("{}")).is_none());
}

#[test]
fn timestamps_in_milliseconds_are_read_as_seconds() {
    let seconds = timestamp_to_rfc3339(&json("1700000000")).unwrap();
    let millis = timestamp_to_rfc3339(&json("1700000000000")).unwrap();
    assert_eq!(seconds, "2023-11-14T22:13:20+00:00");
    assert_eq!(millis, seconds);
    assert_eq!(timestamp_to_rfc3339(&json(r#""1700000000""#)), None);
    assert_eq!(timestamp_to_rfc3339(&json("0")), Some("1970-01-01T00:00:00+00:00".to_string()));
}

#[test]
fn rate_limit_windows_reads_primary_then_secondary() {
    let v = json(RATE_LIMITS);
    let codex = v.get("rateLimitsByLimitId").unwrap().get("codex").unwrap();
    let ws = rate_limit_windows(codex);
    assert_eq!(ws.len(), 2);
    assert_eq!(ws[0].id, "codex-codex-primary");
    assert_eq!(ws[0].resets_at, Some("2023-11-14T22:13:20+00:00".to_string()));
    assert_eq!(ws[1].id, "codex-codex-secondary");
    assert_eq!(ws[1].limit_label, Some("Codex / 10080 分钟".to_string()));

    let bare = json(r#"{"primary": {"usedPercent": 5}}"#);
    let ws = rate_limit_windows(&bare);
    assert_eq!(ws.len(), 1);
    assert_eq!(ws[0].id, "codex-default-primary");
    assert_eq!(ws[0].limit_label, Some("Codex / 用量窗口".to_string()));
}

#[test]
fn all_windows_walk_every_bucket_in_key_order() {
    let ws = all_rate_limit_windows(&json(RATE_LIMITS));
    let ids: Vec<&str> = ws.iter().map(|w| w.id.as_str()).collect();
    assert_eq!(ids, vec!["codex-codex-primary", "codex-codex-secondary", "codex-gpt5-primary"]);

    let single = json(r#"{"rateLimits": {"limitId": "x", "primary": {"usedPercent": 1}}}"#);
    assert_eq!(all_rate_limit_windows(&single).len(), 1);
    assert!(all_rate_limit_windows(&json("{}")).is_empty());
}

#[test]
fn selected_bucket_wins_then_codex_then_first() {
    let v = json(RATE_LIMITS);
    let chosen = select_rate_limit_snapshot(&v, Some("codex-gpt5-primary")).unwrap();
    assert_eq!(chosen.get("limitId").and_then(|x| x.as_str()), Some("gpt5"));
    let chosen = select_rate_limit_snapshot(&v, None).unwrap();
    assert_eq!(chosen.get("limitId").and_then(|x| x.as_str()), Some("codex"));
    let chosen = select_rate_limit_snapshot(&v, Some("codex-missing-primary")).unwrap();
    assert_eq!(chosen.get("limitId").and_then(|x| x.as_str()), Some("codex"));

    let no_codex = json(r#"{"rateLimitsByLimitId": {"b": {"limitId": "b"}, "a": {"limitId": "a"}}}"#);
    let chosen = select_rate_limit_snapshot(&no_codex, None).unwrap();
    assert_eq!(chosen.get("limitId").and_then(|x| x.as_str()), Some("a"));

    let flat = json(r#"{"rateLimits": {"limitId": "flat"}}"#);
    let chosen = select_rate_limit_snapshot(&flat, Some("other")).unwrap();
    assert_eq!(chosen.get("limitId").and_then(|x| x.as_str()), Some("flat"));
    assert!(select_rate_limit_snapshot(&json("{}"), None).is_none());
}

fn window(id: &str) -> UsageWindow {
    UsageWindow {
        id: id.to_string(),
        label: id.to_string(),
        used_percent: 0,
        remaining_percent: 100,
        value_label: None,
        resets_at: None,
        limit_label: None,
        bucket_id: None,
        window_key: None,
    }
}

#[test]
fn selected_window_moves_to_the_front_stably() {
    let mut ws = vec![window("a"), window("b"), window("c"), window("b")];
    sort_selected_window(&mut ws, Some("b"));
    let ids: Vec<&str> = ws.iter().map(|w| w.id.as_str()).collect();
    assert_eq!(ids, vec!["b", "b", "a", "c"]);

    let mut ws = vec![window("a"), window("c")];
    sort_selected_window(&mut ws, None);
    let ids: Vec<&str> = ws.iter().map(|w| w.id.as_str()).collect();
    assert_eq!(ids, vec!["a", "c"]);

    let mut ws = vec![window("a"), window("c")];
    sort_selected_window(&mut ws, Some("zz"));
    let ids: Vec<&str> = ws.iter().map(|w| w.id.as_str()).collect();
    assert_eq!(ids, vec!["a", "c"]);
}

#[test]
fn diagnostic_buckets_list_window_ids() {
    let v = json(RATE_LIMITS);
    let buckets = diagnostic_buckets(Some(&v));
    assert_eq!(buckets.len(), 2);
    assert_eq!(buckets[0].id, "codex");
    assert_eq!(buckets[0].name, Some("Codex".to_string()));
    assert_eq!(buckets[0].primary_window_id, Some("codex-codex-primary".to_string()));
    assert_eq!(buckets[0].secondary_window_id, Some("codex-codex-secondary".to_string()));
    assert_eq!(buckets[1].secondary_window_id, None);

    let flat = json(r#"{"rateLimits": {"primary": {"usedPercent": 3}}}"#);
    let buckets = diagnostic_buckets(Some(&flat));
    assert_eq!(buckets.len(), 1);
    assert_eq!(buckets[0].id, "default");
    assert_eq!(buckets[0].primary_window_id, Some("codex-default-primary".to_string()));
    assert!(diagnostic_buckets(None).is_empty());
}

#[test]
fn numbers_and_numeric_text_become_text() {
    assert_eq!(number_like_to_string(&json("12345")), Some("12345".to_string()));
    assert_eq!(number_like_to_string(&json("-7")), Some("-7".to_string()));
    assert_eq!(number_like_to_string(&json("18446744073709551615")), Some("18446744073709551615".to_string()));
    assert_eq!(number_like_to_string(&json(r#""9.5k""#)), Some("9.5k".to_string()));
    assert_eq!(number_like_to_string(&json("1.5")), None);
    assert_eq!(number_like_to_string(&json("true")), None);
}

#[test]
fn logged_out_session_shows_the_placeholder() {
    let s = session(r#"{"account": null, "requiresOpenaiAuth": true}"#, None, None, vec![]);
    let u = map_snapshot_at(s, &settings_with(None), "T".to_string());
    assert_eq!(u.status, ProviderUsageStatus::LoggedOut);
    assert_eq!(u.provider, "chatgpt");
    assert_eq!(u.account_label, Some("ChatGPT 账号".to_string()));
    assert_eq!(u.windows.len(), 1);
    assert_eq!(u.windows[0].id, "agentic-primary");
    assert_eq!(u.updated_at, Some("T".to_string()));
    assert_eq!(
        u.message,
        Some("Codex 已安装，但 app-server 当前没有登录 ChatGPT 账号。请先运行 `codex login`，然后刷新。".to_string())
    );
    let d = u.diagnostics.unwrap();
    assert!(d.requires_openai_auth);
    assert_eq!(d.codex_path, Some("/usr/bin/codex".to_string()));
    assert_eq!(d.codex_home, Some("/home/u/.codex".to_string()));
}

#[test]
fn signed_in_session_reads_windows_credits_and_messages() {
    let s = session(
        r#"{"account": {"type": "chatgpt", "email": "me@x.io", "planType": "plus"}, "requiresOpenaiAuth": true}"#,
        Some(RATE_LIMITS),
        Some(r#"{"summary": {"lifetimeTokens": 987654}}"#),
        vec!["rate warning".to_string()],
    );
    let u = map_snapshot_at(s, &settings_with(Some("codex-gpt5-primary")), "T".to_string());
    assert_eq!(u.status, ProviderUsageStatus::Normal);
    assert_eq!(u.account_label, Some("me@x.io".to_string()));
    assert_eq!(u.plan_label, Some("Plus".to_string()));
    assert_eq!(u.windows[0].id, "codex-gpt5-primary");
    assert_eq!(u.windows.len(), 3);
    assert_eq!(u.credit_balance, None);
    assert_eq!(
        u.message,
        Some("正在使用当前连接器用量池：GPT-5。 当前数据源账号已识别，API 认证状态不可用；当前优先显示连接器返回的用量窗口。 累计 token：987654。 rate warning".to_string())
    );
    let d = u.diagnostics.unwrap();
    assert_eq!(d.selected_window_id, Some("codex-gpt5-primary".to_string()));
    assert_eq!(d.raw_account_kind, Some("chatgpt".to_string()));
    assert_eq!(d.buckets.len(), 2);
}

#[test]
fn credit_balance_comes_from_the_selected_bucket() {
    let s = session(r#"{"account": {"type": "apiKey"}}"#, Some(RATE_LIMITS), None, vec![]);
    let u = map_snapshot_at(s, &settings_with(None), "T".to_string());
    assert_eq!(u.credit_balance.map(|c| f64::from_bits(c.bits)), Some(12.5));
    assert_eq!(u.windows[0].id, "codex-codex-primary");
    assert_eq!(u.message, Some("正在使用当前连接器用量池：Codex。".to_string()));
}

#[test]
fn session_without_windows_is_unavailable() {
    let s = session(r#"{"account": {"type": "chatgpt"}}"#, None, None, vec![]);
    let u = map_snapshot_at(s, &settings_with(None), "T".to_string());
    assert_eq!(u.status, ProviderUsageStatus::Unavailable);
    assert_eq!(u.windows.len(), 1);
    assert_eq!(u.windows[0].id, "agentic-primary");
    assert_eq!(u.message, None);
    assert_eq!(u.plan_label, None);
}

#[test]
fn long_warnings_are_cut_at_240_bytes() {
    let long = "x".repeat(300);
    let s = session(r#"{"account": {"type": "chatgpt"}}"#, None, None, vec![long.clone()]);
    assert!(warnings_cut_cleanly(&s));
    let u = map_snapshot(s, &settings_with(None));
    assert_eq!(u.message, Some(format!("{}...", "x".repeat(240))));
    assert!(u.updated_at.is_some());

    let wide = format!("x{}", "é".repeat(150));
    let s = session(r#"{"account": {"type": "chatgpt"}}"#, None, None, vec![wide]);
    assert!(!warnings_cut_cleanly(&s));
    let aligned = "中".repeat(90);
    let s = session(r#"{"account": {"type": "chatgpt"}}"#, None, None, vec![aligned]);
    assert!(warnings_cut_cleanly(&s));
    let u = map_snapshot_at(s, &settings_with(None), "T".to_string());
    assert_eq!(u.message, Some(format!("{}...", "中".repeat(80))));
}

#[test]
fn connector_errors_become_error_snapshots() {
    let u = error_snapshot_at(ProviderUsageStatus::CodexMissing, CodexError::new("missing".to_string()), "T".to_string());
    assert_eq!(u.status, ProviderUsageStatus::CodexMissing);
    assert_eq!(u.account_label, Some("当前 AI 数据源".to_string()));
    assert_eq!(u.message, Some("missing".to_string()));
    assert_eq!(u.windows.len(), 1);
    assert_eq!(u.windows[0].label, "AI 用量");
    assert!(u.diagnostics.is_none());
    let placeholder = empty_windows();
    assert_eq!(placeholder[0].limit_label, Some("当前数据源".to_string()));
}

#[test]
fn access_token_must_not_be_blank() {
    assert_eq!(access_token_in(&json(r#"{"tokens": {"access_token": "abc"}}"#)), Some("abc".to_string()));
    assert_eq!(access_token_in(&json(r#"{"tokens": {"access_token": "  "}}"#)), None);
    assert_eq!(access_token_in(&json(r#"{"tokens": {}}"#)), None);
    assert_eq!(auth_file_names(), vec!["auth.json".to_string(), "auth - 副本.json".to_string()]);
}

#[test]
fn token_search_reports_every_file() {
    let paths = vec!["/h/.codex/auth.json".to_string(), "/h/.codex/auth - 副本.json".to_string()];
    let reads = vec![
        AuthFileRead::Unreadable("/h/.codex/auth.json: not found".to_string()),
        AuthFileRead::Parsed(json(r#"{"tokens": {"access_token": ""}}"#)),
    ];
    assert_eq!(
        pick_access_token(&paths, &reads),
        Err("Unable to find ChatGPT access token. /h/.codex/auth.json: not found; /h/.codex/auth - 副本.json: tokens.access_token is empty".to_string())
    );
    let reads = vec![
        AuthFileRead::Unreadable("x".to_string()),
        AuthFileRead::Parsed(json(r#"{"tokens": {"access_token": "tok"}}"#)),
    ];
    assert_eq!(pick_access_token(&paths, &reads), Ok("tok".to_string()));
}

#[test]
fn logged_out_session_ignores_uncuttable_warnings() {
    let wide = format!("x{}", "é".repeat(150));
    let s = session(r#"{"account": null}"#, None, None, vec![wide.clone()]);
    assert!(!warnings_cut_cleanly(&s));
    assert!(snapshot_is_readable(&s));
    let u = map_snapshot_at(s, &settings_with(None), "T".to_string());
    assert_eq!(u.status, ProviderUsageStatus::LoggedOut);
    assert_eq!(u.account_label, Some("ChatGPT 账号".to_string()));
    assert_eq!(u.windows.len(), 1);
    assert_eq!(u.windows[0].id, "agentic-primary");
    assert!(u.diagnostics.is_some());

    let missing = session(r#"{}"#, None, None, vec![wide.clone()]);
    assert!(snapshot_is_readable(&missing));
    let signed_in = session(r#"{"account": {"type": "chatgpt"}}"#, None, None, vec![wide]);
    assert!(!snapshot_is_readable(&signed_in));
}
