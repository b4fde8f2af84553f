use money_like_water::decimal::{i64_to_decimal, parse_usize_chars, u64_to_decimal};
use money_like_water::json::{value_at_path, FloatReading, Json, JsonNumber, JsonText};
use money_like_water::text::{clip_text, text_cuts_cleanly};
use money_like_water::usage::{
    meter_item_from_usage, provider_label, usage_tooltip, ProviderUsage, ProviderUsageStatus,
    UsageWindow,
};

fn reading(f: f64) -> FloatReading {
    FloatReading { bits: f.to_bits(), rounded: f.round() as i64 }
}

fn conv(v: &serde_json::Value) -> Json {
    match v {
        serde_json::Value::Null => Json::Null,
        serde_json::Value::Bool(b) => Json::Bool(*b),
        serde_json::Value::Number(n) => Json::Number(JsonNumber {
            as_i64: n.as_i64(),
            as_u64: n.as_u64(),
            as_f64: reading(n.as_f64().unwrap_or(f64::NAN)),
        }),
        serde_json::Value::String(s) => Json::Text(JsonText {
            text: s.clone(),
            reading: s.parse::<f64>().ok().map(reading),
            trimmed_reading: s.trim().parse::<f64>().ok().map(reading),
        }),
        serde_json::Value::Array(a) => Json::Array(a.iter().map(conv).collect()),
        serde_json::Value::Object(m) => {
            Json::Object(m.iter().map(|(k, v)| (k.clone(), conv(v))).collect())
        }
    }
}

fn json(text: &str) -> Json {
    conv(&serde_json::from_str(text).unwrap())
}

#[test]
fn status_labels() {
    assert_eq!(ProviderUsageStatus::Normal.label(), "正常");
    assert_eq!(ProviderUsageStatus::CodexMissing.label(), "连接器不可用");
    assert_eq!(ProviderUsageStatus::LoggedOut.label(), "未登录");
    assert_eq!(ProviderUsageStatus::Unauthorized.label(), "无权限");
    assert_eq!(ProviderUsageStatus::Unavailable.label(), "不可用");
    assert_eq!(ProviderUsageStatus::Error.label(), "错误");
}

#[test]
fn value_paths_read_members_indexes_and_filters() {
    let v = json(r#"{"data": {"items": [{"balance": 1}, {"balance": 2}]}, "infos": [{"currency": "USD", "total": 5}, {"currency": "CNY", "total": 7}]}"#);
    let x = value_at_path(&v, "data.items[1].balance").unwrap().unwrap();
    assert_eq!(x.as_i64(), Some(2));
    let x = value_at_path(&v, " infos[ currency = CNY ].total ").unwrap().unwrap();
    assert_eq!(x.as_i64(), Some(7));
    let x = value_at_path(&v, "data..items[0].balance").unwrap().unwrap();
    assert_eq!(x.as_i64(), Some(1));
    assert!(value_at_path(&v, "data.items[5]").unwrap().is_none());
    assert!(value_at_path(&v, "infos[currency=EUR]").unwrap().is_none());
    assert!(value_at_path(&v, "data[0]").unwrap().is_none());
    assert!(value_at_path(&v, "data.items[0").unwrap().is_none());
    let root = value_at_path(&v, "").unwrap().unwrap();
    assert!(root.get("data").is_some());
    let list = json("[10, 20]");
    assert_eq!(value_at_path(&list, "[1]").unwrap().unwrap().as_i64(), Some(20));
    assert!(value_at_path(&v, "data]x[").is_err());
}

#[test]
fn decimals_round_trip() {
    assert_eq!(u64_to_decimal(0), "0");
    assert_eq!(u64_to_decimal(18446744073709551615), "18446744073709551615");
    assert_eq!(i64_to_decimal(-9223372036854775808), "-9223372036854775808");
    assert_eq!(parse_usize_chars(&"42".chars().collect::<Vec<_>>()), Some(42));
    assert_eq!(parse_usize_chars(&"+7".chars().collect::<Vec<_>>()), Some(7));
    assert_eq!(parse_usize_chars(&"-1".chars().collect::<Vec<_>>()), None);
    assert_eq!(parse_usize_chars(&"".chars().collect::<Vec<_>>()), None);
    assert_eq!(parse_usize_chars(&"4a".chars().collect::<Vec<_>>()), None);
    let n: usize = 123456;
    assert_eq!(parse_usize_chars(&n.to_string().chars().collect::<Vec<_>>()), Some(n));
}

#[test]
fn clipping_counts_utf8_bytes() {
    assert_eq!(clip_text("short", 10), "short");
    assert_eq!(clip_text("abcdef", 3), "abc...");
    assert_eq!(clip_text("中文字", 6), "中文...");
    assert!(text_cuts_cleanly("中文字", 6));
    assert!(!text_cuts_cleanly("中文字", 4));
    assert!(text_cuts_cleanly("中", 4));
}

fn usage(windows: Vec<UsageWindow>, account: Option<&str>) -> ProviderUsage {
    ProviderUsage {
        provider: "kimi".to_string(),
        account_label: account.map(|a| a.to_string()),
        plan_label: None,
        credit_balance: None,
        status: ProviderUsageStatus::Normal,
        windows,
        meter_items: Vec::new(),
        updated_at: None,
        message: None,
        diagnostics: None,
    }
}

fn window(remaining: u8, resets: Option<&str>) -> UsageWindow {
    UsageWindow {
        id: "w".to_string(),
        label: "W".to_string(),
        used_percent: 100 - remaining,
        remaining_percent: remaining,
        value_label: Some("v".to_string()),
        resets_at: resets.map(|r| r.to_string()),
        limit_label: None,
        bucket_id: None,
        window_key: None,
    }
}

#[test]
fn meter_items_use_the_first_window() {
    let item = meter_item_from_usage(&usage(vec![window(64, Some("soon"))], None));
    assert_eq!(item.id, "kimi");
    assert_eq!(item.label, "kimi");
    assert_eq!(item.remaining_percent, 64);
    assert_eq!(item.value_label, Some("v".to_string()));
    assert_eq!(item.reset_label, Some("soon".to_string()));
    assert_eq!(item.status, ProviderUsageStatus::Normal);
    let empty = meter_item_from_usage(&usage(Vec::new(), None));
    assert_eq!(empty.remaining_percent, 0);
    assert_eq!(empty.value_label, None);
    assert_eq!(provider_label("glm"), "glm");
}

#[test]
fn tooltip_summarizes_the_snapshot() {
    assert_eq!(
        usage_tooltip(&usage(vec![window(64, Some("2025-01-01"))], Some("me"))),
        "Money Like Water\nme\n正常: 剩余 64% 重置 2025-01-01"
    );
    assert_eq!(
        usage_tooltip(&usage(Vec::new(), None)),
        "Money Like Water\nAI 用量监控\n正常: 暂无用量窗口"
    );
}

#[test]
fn a_path_reads_within_what_its_head_reads() {
    let v = json(r#"{"data": {"items": [{"balance": 1}, {"balance": 2}]}}"#);
    let head = value_at_path(&v, "data.items").unwrap().unwrap();
    let tail = value_at_path(head, "[1].balance").unwrap().unwrap();
    let whole = value_at_path(&v, "data.items.[1].balance").unwrap().unwrap();
    assert_eq!(tail.as_i64(), whole.as_i64());
    assert!(value_at_path(&v, "nothing").unwrap().is_none());
    assert!(value_at_path(&v, "nothing.data").unwrap().is_none());
}

#[test]
fn clipped_text_stays_within_its_bound() {
    for (text, limit) in [("abcdefgh", 0usize), ("abcdefgh", 5), ("αβγδε", 4), ("short", 5), ("😀😀😀", 8)] {
        let clipped = clip_text(text, limit);
        assert!(clipped.len() <= limit + 3);
        if text.len() <= limit {
            assert_eq!(clipped, text);
        } else {
            assert!(text.starts_with(clipped.trim_end_matches("...")));
        }
    }
}
