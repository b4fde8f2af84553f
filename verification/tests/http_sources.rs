use money_like_water::http_source::{
    classify_status, currency_symbol, empty_windows, endpoint_candidates, first_number, first_text,
    gate_snapshot, join_url, normalize_endpoint, ok_snapshot_at, ok_snapshot_with_windows_at,
    percent_of, provider_usage_from_transform_at, query_failed_snapshot, record_outcome,
    rule_window, unauthorized_snapshot_at, uses_transform, window_targets, ArrayWindowRule,
    AuthMode, EndpointOutcome, ExtractionRule, HttpSourceConfig, ResponseClass, TextOrNumber,
    ValueKind, WindowRule,
};
use money_like_water::json::{FloatBits, FloatReading, Json, JsonNumber, JsonText};
use money_like_water::usage::ProviderUsageStatus;

fn reading(f: f64) -> FloatReading {
    FloatReading { bits: f.to_bits(), rounded: f.round() as i64 }
}

fn conv(v: &serde_json::Value) -> Json {
    match v {
        serde_json::Value::Null => Json::Null,
        serde_json::Value::Bool(b) => Json::Bool(*b),
        serde_json::Value::Number(n) => Json::Number(JsonNumber {
            as_i64: n.as_i64(),
            as_u64: n.as_u64(),
            as_f64: reading(n.as_f64().unwrap_or(f64::NAN)),
        }),
        serde_json::Value::String(s) => Json::Text(JsonText {
            text: s.clone(),
            reading: s.parse::<f64>().ok().map(reading),
            trimmed_reading: s.trim().parse::<f64>().ok().map(reading),
        }),
        serde_json::Value::Array(a) => Json::Array(a.iter().map(conv).collect()),
        serde_json::Value::Object(m) => {
            Json::Object(m.iter().map(|(k, v)| (k.clone(), conv(v))).collect())
        }
    }
}

fn json(text: &str) -> Json {
    conv(&serde_json::from_str(text).unwrap())
}

fn config() -> HttpSourceConfig {
    HttpSourceConfig {
        provider_id: "demo".to_string(),
        label: "Demo".to_string(),
        base_url: "https://api.example.com/".to_string(),
        endpoint: "balance".to_string(),
        endpoint_fallbacks: vec!["/balance".to_string(), " ".to_string(), "/v2/balance".to_string()],
        enabled: true,
        api_key: "key".to_string(),
        auth: AuthMode::Bearer,
        headers: Vec::new(),
        timeout_seconds: 8,
        window_id: "demo-value".to_string(),
        window_key: "value".to_string(),
        limit_label: "HTTP value".to_string(),
        empty_limit_label: "HTTP value".to_string(),
        value_kind: ValueKind::Money,
        low_threshold: None,
        extraction_rules: Vec::new(),
        currency_paths: Vec::new(),
        currency_default: Some("USD".to_string()),
        reset_paths: Vec::new(),
        transform_script: String::new(),
        window_rules: Vec::new(),
        array_window_rules: Vec::new(),
    }
}

#[test]
fn endpoints_are_normalized_and_joined() {
    assert_eq!(normalize_endpoint("  usage "), "/usage");
    assert_eq!(normalize_endpoint("/usage"), "/usage");
    assert_eq!(normalize_endpoint("   "), "");
    assert_eq!(normalize_endpoint(&normalize_endpoint(" a/b ")), normalize_endpoint(" a/b "));
    assert_eq!(join_url(" https://x.io// ", "//v1/usage "), "https://x.io/v1/usage");
    assert_eq!(join_url("https://x.io", ""), "https://x.io/");
}

#[test]
fn endpoint_candidates_are_distinct_and_ordered() {
    let c = config();
    assert_eq!(endpoint_candidates(&c), vec!["/balance".to_string(), "/v2/balance".to_string()]);
}

#[test]
fn disabled_sources_and_blank_keys_are_not_queried() {
    let mut c = config();
    assert!(gate_snapshot(&c).is_none());
    c.api_key = "   ".to_string();
    let u = gate_snapshot(&c).unwrap();
    assert_eq!(u.status, ProviderUsageStatus::Unavailable);
    assert_eq!(u.message, Some("Demo API key is empty.".to_string()));
    c.enabled = false;
    let u = gate_snapshot(&c).unwrap();
    assert_eq!(u.message, Some("Demo data source is disabled.".to_string()));
    assert_eq!(u.plan_label, Some("https://api.example.com/".to_string()));
    assert_eq!(u.windows[0].id, "demo-value");
}

#[test]
fn status_codes_decide_the_next_step() {
    assert_eq!(classify_status(401), ResponseClass::Refused);
    assert_eq!(classify_status(403), ResponseClass::Refused);
    assert_eq!(classify_status(200), ResponseClass::Success);
    assert_eq!(classify_status(204), ResponseClass::Success);
    assert_eq!(classify_status(404), ResponseClass::Failed);
    assert_eq!(classify_status(500), ResponseClass::Failed);
}

#[test]
fn outcomes_are_noted_until_one_ends_the_query() {
    let c = config();
    let mut failures: Vec<String> = Vec::new();
    assert!(record_outcome(&c, "https://u/1", EndpointOutcome::SendFailed("timeout".to_string()), &mut failures).is_none());
    assert!(record_outcome(&c, "https://u/2", EndpointOutcome::HttpFailed("404 Not Found".to_string()), &mut failures).is_none());
    assert!(record_outcome(&c, "https://u/3", EndpointOutcome::InvalidJson("eof".to_string()), &mut failures).is_none());
    assert!(record_outcome(&c, "https://u/4", EndpointOutcome::TransformFailed("boom".to_string()), &mut failures).is_none());
    assert!(record_outcome(&c, "https://u/5", EndpointOutcome::NoValue, &mut failures).is_none());
    assert_eq!(
        failures,
        vec![
            "https://u/1: timeout".to_string(),
            "https://u/2: HTTP 404 Not Found".to_string(),
            "https://u/3: invalid JSON: eof".to_string(),
            "https://u/4: transform failed: boom".to_string(),
            "https://u/5: no configured value path matched".to_string(),
        ]
    );
    let u = query_failed_snapshot(&c, &failures);
    assert_eq!(u.status, ProviderUsageStatus::Error);
    assert!(u.message.unwrap().starts_with("Demo query failed. https://u/1: timeout; https://u/2"));

    let refused = record_outcome(&c, "https://u/6", EndpointOutcome::Refused("401 Unauthorized".to_string()), &mut failures).unwrap();
    assert_eq!(refused.status, ProviderUsageStatus::Unauthorized);
    assert_eq!(refused.message, Some("https://u/6 returned 401 Unauthorized; check the API key.".to_string()));
    assert_eq!(failures.len(), 5);
}

#[test]
fn unauthorized_snapshot_names_url_and_status() {
    let u = unauthorized_snapshot_at(&config(), "https://a/b", "403 Forbidden", "T".to_string());
    assert_eq!(u.message, Some("https://a/b returned 403 Forbidden; check the API key.".to_string()));
    assert_eq!(u.updated_at, Some("T".to_string()));
}

#[test]
fn transform_results_become_snapshots() {
    let c = config();
    let v = json(r#"{"windows": [{"remainingPercent": 72.6, "label": "Weekly"}, {"remainingPercent": "10", "usedPercent": 95.2, "id": "w2", "bucketId": "b"}], "creditBalance": "3.5", "message": "hi"}"#);
    let u = provider_usage_from_transform_at(&c, &v, "T".to_string()).unwrap();
    assert_eq!(u.status, ProviderUsageStatus::Normal);
    assert_eq!(u.windows.len(), 2);
    assert_eq!(u.windows[0].id, "demo-0");
    assert_eq!(u.windows[0].label, "Weekly");
    assert_eq!(u.windows[0].remaining_percent, 73);
    assert_eq!(u.windows[0].used_percent, 27);
    assert_eq!(u.windows[0].bucket_id, Some("demo".to_string()));
    assert_eq!(u.windows[1].id, "w2");
    assert_eq!(u.windows[1].label, "Demo");
    assert_eq!(u.windows[1].remaining_percent, 10);
    assert_eq!(u.windows[1].used_percent, 95);
    assert_eq!(u.credit_balance.map(|b| f64::from_bits(b.bits)), Some(3.5));
    assert_eq!(u.message, Some("hi".to_string()));
    assert_eq!(u.account_label, Some("Demo".to_string()));
    assert_eq!(u.plan_label, Some("https://api.example.com/".to_string()));
}

#[test]
fn transform_results_without_windows_are_rejected() {
    let c = config();
    assert_eq!(
        provider_usage_from_transform_at(&c, &json("{}"), "T".to_string()).unwrap_err(),
        "transform result must include windows[]"
    );
    assert_eq!(
        provider_usage_from_transform_at(&c, &json(r#"{"windows": []}"#), "T".to_string()).unwrap_err(),
        "transform returned no windows"
    );
    assert_eq!(
        provider_usage_from_transform_at(&c, &json(r#"{"windows": [{"remainingPercent": 1}, {"label": "x"}]}"#), "T".to_string()).unwrap_err(),
        "windows[1].remainingPercent is required"
    );
    let u = provider_usage_from_transform_at(&c, &json(r#"{"windows": [{"remainingPercent": 1}]}"#), "T".to_string()).unwrap();
    assert_eq!(u.message, Some("Demo updated.".to_string()));
}

#[test]
fn percent_is_rounded_and_clamped() {
    assert_eq!(percent_of(reading(49.5)), 50);
    assert_eq!(percent_of(reading(-3.0)), 0);
    assert_eq!(percent_of(reading(250.0)), 100);
    assert_eq!(percent_of(reading(f64::NAN)), 0);
    assert_eq!(percent_of(reading(f64::INFINITY)), 100);
}

#[test]
fn window_rules_find_their_targets() {
    let mut c = config();
    c.window_rules = vec![
        WindowRule {
            id: "weekly".to_string(),
            label: "Week".to_string(),
            root_path: "usage".to_string(),
            limit_path: "limit".to_string(),
            remaining_path: "remaining".to_string(),
            used_path: None,
            reset_path: Some("resetTime".to_string()),
            limit_label: Some("Weekly".to_string()),
            window_key: None,
        },
        WindowRule {
            id: "missing".to_string(),
            label: "M".to_string(),
            root_path: "nothing.here".to_string(),
            limit_path: "limit".to_string(),
            remaining_path: "remaining".to_string(),
            used_path: None,
            reset_path: None,
            limit_label: None,
            window_key: None,
        },
    ];
    c.array_window_rules = vec![ArrayWindowRule {
        id_prefix: "limit".to_string(),
        label: "Limit".to_string(),
        array_path: "limits".to_string(),
        item_root_path: "detail".to_string(),
        limit_path: "limit".to_string(),
        remaining_path: "remaining".to_string(),
        used_path: None,
        reset_path: None,
        limit_label: None,
        window_key_prefix: Some("lim".to_string()),
    }];
    let raw = json(r#"{"usage": {"limit": 100, "remaining": 40, "resetTime": "2025-01-01"}, "limits": [{"detail": {"limit": 10, "remaining": 5}}, {"other": 1}, {"detail": {"limit": 3, "remaining": 3}}]}"#);
    let targets = window_targets(&c, &raw).unwrap();
    assert_eq!(targets.len(), 3);
    assert_eq!(targets[0].rule.id, "weekly");
    assert_eq!(targets[1].rule.id, "limit-0");
    assert_eq!(targets[1].rule.label, "Limit 1");
    assert_eq!(targets[1].rule.window_key, Some("lim-0".to_string()));
    assert_eq!(targets[2].rule.id, "limit-2");
    assert_eq!(targets[2].rule.label, "Limit 3");

    let w = rule_window(&c, targets[0].root, &targets[0].rule, 40, 60).unwrap();
    assert_eq!(w.id, "demo-weekly");
    assert_eq!(w.value_label, Some("40%".to_string()));
    assert_eq!(w.resets_at, Some("2025-01-01".to_string()));
    assert_eq!(w.window_key, Some("weekly".to_string()));
    assert_eq!(w.limit_label, Some("Weekly".to_string()));
}

#[test]
fn window_snapshot_message_uses_the_first_window() {
    let c = config();
    let mut ws = empty_windows(&c);
    ws[0].label = "Week".to_string();
    ws[0].remaining_percent = 55;
    let u = ok_snapshot_with_windows_at(&c, ws, "T".to_string());
    assert_eq!(u.message, Some("Demo Week: 55%".to_string()));
    assert_eq!(u.status, ProviderUsageStatus::Normal);
    let u = ok_snapshot_with_windows_at(&c, Vec::new(), "T".to_string());
    assert_eq!(u.message, Some("Demo updated.".to_string()));
}

#[test]
fn value_snapshot_has_one_window() {
    let c = config();
    let u = ok_snapshot_at(&c, FloatBits { bits: 12.5f64.to_bits() }, 30, "$12.50".to_string(), None, "/balance", "T".to_string());
    assert_eq!(u.windows.len(), 1);
    assert_eq!(u.windows[0].used_percent, 70);
    assert_eq!(u.windows[0].limit_label, Some("HTTP value /balance".to_string()));
    assert_eq!(u.message, Some("Demo current value: $12.50".to_string()));
}

#[test]
fn first_number_takes_the_first_matching_rule() {
    let rules = vec![
        ExtractionRule { path: "data.missing".to_string(), divisor: FloatBits { bits: 1.0f64.to_bits() } },
        ExtractionRule { path: "data.quota".to_string(), divisor: FloatBits { bits: 500.0f64.to_bits() } },
        ExtractionRule { path: "data.balance".to_string(), divisor: FloatBits { bits: 1.0f64.to_bits() } },
    ];
    let v = json(r#"{"data": {"quota": " 250 ", "balance": 9}}"#);
    let (n, d) = first_number(&v, &rules).unwrap().unwrap();
    assert_eq!(f64::from_bits(n.bits), 250.0);
    assert_eq!(f64::from_bits(d.bits), 500.0);
    assert!(first_number(&json("{}"), &rules).unwrap().is_none());
    let bad = vec![ExtractionRule { path: "a]b[".to_string(), divisor: FloatBits { bits: 1.0f64.to_bits() } }];
    assert!(first_number(&v, &bad).is_err());
}

#[test]
fn first_text_prefers_strings_then_numbers() {
    let v = json(r#"{"infos": [{"currency": "CNY", "total": 3}], "n": 12}"#);
    match first_text(&v, &vec!["nope".to_string(), "infos[currency=CNY].currency".to_string()]).unwrap() {
        Some(TextOrNumber::Text(t)) => assert_eq!(t, "CNY"),
        other => panic!("unexpected {:?}", other),
    }
    match first_text(&v, &vec!["n".to_string()]).unwrap() {
        Some(TextOrNumber::Number(n)) => assert_eq!(f64::from_bits(n.bits), 12.0),
        other => panic!("unexpected {:?}", other),
    }
    assert!(first_text(&v, &vec!["infos[0]".to_string()]).unwrap().is_none());
}

#[test]
fn currency_symbols() {
    assert_eq!(currency_symbol(None), "$");
    assert_eq!(currency_symbol(Some("USD")), "$");
    assert_eq!(currency_symbol(Some("CNY")), "CNY ");
    assert_eq!(currency_symbol(Some("EUR")), "EUR");
}

#[test]
fn transform_is_used_only_with_a_script() {
    let mut c = config();
    assert!(!uses_transform(&c));
    c.transform_script = "  \n".to_string();
    assert!(!uses_transform(&c));
    c.transform_script = "return json;".to_string();
    assert!(uses_transform(&c));
}
