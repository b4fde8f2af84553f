use money_like_water::codex::{
    call_failed_message, classify_reply, codex_executable_names, extension_codex_candidates,
    extension_roots, is_codex_extension_dir, pick_codex_cli, record_stderr_line, reply_result,
    snapshot_from_replies, strip_ansi, timeout_message, version_check, CodexError, ReplyKind,
};
use money_like_water::json::{FloatReading, Json, JsonNumber, JsonText};

fn reading(f: f64) -> FloatReading {
    FloatReading { bits: f.to_bits(), rounded: f.round() as i64 }
}

fn conv(v: &serde_json::Value) -> Json {
    match v {
        serde_json::Value::Null => Json::Null,
        serde_json::Value::Bool(b) => Json::Bool(*b),
        serde_json::Value::Number(n) => Json::Number(JsonNumber {
            as_i64: n.as_i64(),
            as_u64: n.as_u64(),
            as_f64: reading(n.as_f64().unwrap_or(f64::NAN)),
        }),
        serde_json::Value::String(s) => Json::Text(JsonText {
            text: s.clone(),
            reading: s.parse::<f64>().ok().map(reading),
            trimmed_reading: s.trim().parse::<f64>().ok().map(reading),
        }),
        serde_json::Value::Array(a) => Json::Array(a.iter().map(conv).collect()),
        serde_json::Value::Object(m) => {
            Json::Object(m.iter().map(|(k, v)| (k.clone(), conv(v))).collect())
        }
    }
}

fn json(text: &str) -> Json {
    conv(&serde_json::from_str(text).unwrap())
}

#[test]
fn strip_ansi_removes_color_sequences() {
    assert_eq!(strip_ansi("\u{1b}[31mred\u{1b}[0m plain"), "red plain");
    assert_eq!(strip_ansi("\u{1b}[1;32mok"), "ok");
    assert_eq!(strip_ansi("\u{1b}[unterminated 123"), "nterminated 123");
    assert_eq!(strip_ansi("\u{1b}[123"), "");
    assert_eq!(strip_ansi("lone \u{1b} escape"), "lone \u{1b} escape");
}

#[test]
fn strip_ansi_keeps_plain_text() {
    for text in ["", "plain text", "中文 [brackets] 123"] {
        assert_eq!(strip_ansi(text), text);
    }
}

#[test]
fn stderr_keeps_eight_clean_lines() {
    let mut lines: Vec<String> = Vec::new();
    for i in 0..10 {
        record_stderr_line(&mut lines, &format!("\u{1b}[33mline {i}\u{1b}[0m"));
    }
    assert_eq!(lines.len(), 8);
    assert_eq!(lines[0], "line 0");
    assert_eq!(lines[7], "line 7");
}

#[test]
fn replies_are_matched_by_id() {
    assert_eq!(classify_reply(&json(r#"{"id": 2, "result": {}}"#), 1), ReplyKind::Unrelated);
    assert_eq!(classify_reply(&json(r#"{"method": "note"}"#), 1), ReplyKind::Unrelated);
    assert_eq!(classify_reply(&json(r#"{"id": "1", "result": {}}"#), 1), ReplyKind::Unrelated);
    assert_eq!(classify_reply(&json(r#"{"id": 1, "error": {"code": -1}}"#), 1), ReplyKind::Failed);
    assert_eq!(classify_reply(&json(r#"{"id": 1, "result": {"a": 1}}"#), 1), ReplyKind::Answered);
    assert_eq!(classify_reply(&json(r#"{"id": 1}"#), 1), ReplyKind::Answered);
}

#[test]
fn reply_result_defaults_to_null() {
    let r = reply_result(json(r#"{"id": 1, "result": {"a": true}}"#));
    assert_eq!(r.get("a").and_then(|v| v.as_bool()), Some(true));
    assert!(reply_result(json(r#"{"id": 1}"#)).is_null());
    assert!(reply_result(json("[1]")).is_null());
}

#[test]
fn failed_calls_show_the_error_cut_at_500_bytes() {
    assert_eq!(
        call_failed_message("account/read", r#"{"code":-32600}"#),
        "Codex `account/read` 调用失败：{\"code\":-32600}"
    );
    let long = "e".repeat(600);
    assert_eq!(
        call_failed_message("m", &long),
        format!("Codex `m` 调用失败：{}...", "e".repeat(500))
    );
}

#[test]
fn timeouts_list_the_stderr_lines() {
    assert_eq!(
        timeout_message("initialize", &vec![]),
        "等待 Codex `initialize` 响应超时（没有 stderr 输出）。"
    );
    assert_eq!(
        timeout_message("initialize", &vec!["a".to_string(), "b".to_string()]),
        "等待 Codex `initialize` 响应超时（a | b）。"
    );
}

#[test]
fn snapshot_collects_failed_optional_calls() {
    let s = snapshot_from_replies(
        "codex".to_string(),
        json("{}"),
        json(r#"{"account": null}"#),
        Err(CodexError::new("rate failed".to_string())),
        Ok(json(r#"{"summary": {}}"#)),
    );
    assert!(s.rate_limits.is_none());
    assert!(s.usage.is_some());
    assert_eq!(s.warnings, vec!["rate failed".to_string()]);

    let s = snapshot_from_replies(
        "codex".to_string(),
        json("{}"),
        json("{}"),
        Err(CodexError::new("a".to_string())),
        Err(CodexError::new("b".to_string())),
    );
    assert_eq!(s.warnings, vec!["a".to_string(), "b".to_string()]);
}

#[test]
fn cli_is_picked_in_order() {
    assert_eq!(
        pick_codex_cli(Some("env".to_string()), Some("path".to_string()), None).unwrap(),
        "env"
    );
    assert_eq!(pick_codex_cli(None, Some("path".to_string()), Some("ext".to_string())).unwrap(), "path");
    assert_eq!(pick_codex_cli(None, None, Some("ext".to_string())).unwrap(), "ext");
    let err = pick_codex_cli(None, None, None).unwrap_err();
    assert!(err.message.starts_with("未找到 Codex CLI"));
}

#[test]
fn cli_names_and_extension_dirs() {
    assert_eq!(codex_executable_names(false), vec!["codex".to_string()]);
    assert_eq!(
        codex_executable_names(true),
        vec!["codex.exe".to_string(), "codex.cmd".to_string(), "codex.bat".to_string(), "codex".to_string()]
    );
    assert_eq!(extension_roots().len(), 4);
    assert_eq!(extension_roots()[0], ".vscode\\extensions");
    assert_eq!(extension_codex_candidates()[2], "bin\\codex.exe");
    assert!(is_codex_extension_dir("OpenAI.ChatGPT-1.2.3"));
    assert!(is_codex_extension_dir("openai.codex-0.1"));
    assert!(!is_codex_extension_dir("openai.chatgpt"));
    assert!(!is_codex_extension_dir("ms-python.python-1"));
}

#[test]
fn version_check_reports_trimmed_stderr() {
    assert!(version_check(true, "ignored").is_ok());
    let err = version_check(false, "  boom \n").unwrap_err();
    assert_eq!(err.message, "`codex --version` 执行失败：boom");
}
