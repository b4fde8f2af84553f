//! The Codex connector: what its `app-server` answers, the rules that
//! decide how a JSON-RPC reply is read, and the messages shown when the
//! connector fails.

use vstd::prelude::*;
use crate::json::Json;
use crate::text::{
    chars_of, chars_begin_with, clip_text, clipped, concat, cuts_cleanly, lowercase,
    lowercase_chars, owned, push_char, starts_with, trim, trim_chars, string_from,
};
use crate::http_source::{join_strings, join_with};

verus! {

/// A failure of the Codex connector, with the message shown to the user.
#[derive(Debug)]
pub struct CodexError {
    pub message: String,
}

impl CodexError {
    /// A failure with the given message.
    pub fn new(message: String) -> (r: CodexError)
        ensures
            r.message@ == message@,
    {
        CodexError { message }
    }
}

/// What the Codex `app-server` answered in one session: the path of the
/// CLI, the replies to `initialize`, `account/read`,
/// `account/rateLimits/read` and `account/usage/read` (the last two absent
/// where the call failed), and the messages of those failures.
#[derive(Debug)]
pub struct CodexSnapshot {
    pub codex_path: String,
    pub initialize: Json,
    pub account: Json,
    pub rate_limits: Option<Json>,
    pub usage: Option<Json>,
    pub warnings: Vec<String>,
}

/// The message of a failed optional call, if it failed.
pub open spec fn failure_message(r: Result<Json, CodexError>) -> Seq<Seq<char>> {
    match r {
        Ok(_) => Seq::empty(),
        Err(e) => seq![e.message@],
    }
}

/// The reply of an optional call, if it succeeded.
pub open spec fn reply_value(r: Result<Json, CodexError>) -> Option<Json> {
    match r {
        Ok(v) => Some(v),
        Err(_) => None,
    }
}

/// The snapshot of one session: the rate-limit and usage replies where
/// those calls succeeded, and the message of each one that failed, in the
/// order of the calls.
pub fn snapshot_from_replies(
    codex_path: String,
    initialize: Json,
    account: Json,
    rate_limits: Result<Json, CodexError>,
    usage: Result<Json, CodexError>,
) -> (r: CodexSnapshot)
    ensures
        r.codex_path@ == codex_path@,
        r.initialize == initialize,
        r.account == account,
        r.rate_limits == reply_value(rate_limits),
        r.usage == reply_value(usage),
        r.warnings.deep_view() == failure_message(rate_limits) + failure_message(usage),
{
    let ghost rl = rate_limits;
    let ghost us = usage;
    let mut warnings: Vec<String> = Vec::new();
    let rate_limits = match rate_limits {
        Ok(value) => Some(value),
        Err(err) => {
            warnings.push(err.message);
            None
        },
    };
    let usage = match usage {
        Ok(value) => Some(value),
        Err(err) => {
            warnings.push(err.message);
            None
        },
    };
    assert(warnings.deep_view() =~= failure_message(rl) + failure_message(us));
    CodexSnapshot { codex_path, initialize, account, rate_limits, usage, warnings }
}

// ------------------------------------------------------------------------
// Terminal escape sequences
// ------------------------------------------------------------------------

/// `char::is_ascii_alphabetic`.
pub open spec fn is_ascii_letter(c: char) -> bool {
    ('a' <= c <= 'z') || ('A' <= c <= 'Z')
}

/// What follows the first ASCII letter of `s` (the final byte of an escape
/// sequence); nothing when `s` has none.
pub open spec fn after_final_byte(s: Seq<char>) -> Seq<char>
    decreases s.len(),
{
    if s.len() == 0 {
        s
    } else if is_ascii_letter(s[0]) {
        s.drop_first()
    } else {
        after_final_byte(s.drop_first())
    }
}

/// What follows the final byte of an escape sequence is no longer than the
/// text it was cut from.
pub proof fn lemma_after_final_byte_shorter(s: Seq<char>)
    ensures
        after_final_byte(s).len() <= s.len(),
    decreases s.len(),
{
    if s.len() > 0 && !is_ascii_letter(s[0]) {
        lemma_after_final_byte_shorter(s.drop_first());
    }
}

/// `s` without its ANSI escape sequences: each `ESC [` is dropped together
/// with everything up to and including the next ASCII letter.
pub open spec fn strip_ansi_view(s: Seq<char>) -> Seq<char>
    decreases s.len(),
{
    if s.len() == 0 {
        s
    } else if s[0] == '\u{1b}' && s.len() > 1 && s[1] == '[' {
        proof {
            lemma_after_final_byte_shorter(s.skip(2));
        }
        strip_ansi_view(after_final_byte(s.skip(2)))
    } else {
        seq![s[0]] + strip_ansi_view(s.drop_first())
    }
}

fn char_is_ascii_letter(c: char) -> (r: bool)
    ensures
        r == is_ascii_letter(c),
{
    ('a' <= c && c <= 'z') || ('A' <= c && c <= 'Z')
}

/// `value` without its ANSI escape sequences (see `strip_ansi_view`).
pub fn strip_ansi(value: &str) -> (r: String)
    ensures
        r@ == strip_ansi_view(value@),
{
    let v = chars_of(value);
    let mut out = String::new();
    let mut i: usize = 0;
    assert(v@.skip(0) =~= v@);
    while i < v.len()
        invariant
            v@ == value@,
            i <= v@.len(),
            out@ + strip_ansi_view(v@.skip(i as int)) == strip_ansi_view(v@),
        decreases v@.len() - i,
    {
        let ghost rest = v@.skip(i as int);
        assert(rest[0] == v@[i as int]);
        if v[i] == '\u{1b}' && i + 1 < v.len() && v[i + 1] == '[' {
            assert(rest[1] == v@[i + 1]);
            assert(rest.skip(2) =~= v@.skip(i + 2));
            let mut j: usize = i + 2;
            while j < v.len() && !char_is_ascii_letter(v[j])
                invariant
                    i + 2 <= j <= v@.len(),
                    after_final_byte(v@.skip(i + 2)) == after_final_byte(v@.skip(j as int)),
                decreases v@.len() - j,
            {
                assert(v@.skip(j as int).drop_first() =~= v@.skip(j + 1));
                assert(v@.skip(j as int)[0] == v@[j as int]);
                j = j + 1;
            }
            if j < v.len() {
                assert(v@.skip(j as int).drop_first() =~= v@.skip(j + 1));
                assert(v@.skip(j as int)[0] == v@[j as int]);
                i = j + 1;
            } else {
                assert(v@.skip(j as int) =~= Seq::<char>::empty());
                assert(v@.skip(v@.len() as int) =~= Seq::<char>::empty());
                i = j;
            }
        } else {
            assert(rest.drop_first() =~= v@.skip(i + 1));
            let ghost before = out@;
            push_char(&mut out, v[i]);
            assert(before + (seq![v@[i as int]] + strip_ansi_view(v@.skip(i + 1))) =~= out@
                + strip_ansi_view(v@.skip(i + 1)));
            i = i + 1;
        }
    }
    assert(v@.skip(i as int) =~= Seq::<char>::empty());
    assert(out@ + Seq::<char>::empty() =~= out@);
    out
}

/// Text without an `ESC` character comes out of `strip_ansi` unchanged.
pub proof fn law_strip_ansi_keeps_plain_text(s: Seq<char>)
    requires
        !s.contains('\u{1b}'),
    ensures
        strip_ansi_view(s) == s,
    decreases s.len(),
{
    if s.len() > 0 {
        assert(s[0] != '\u{1b}') by {
            assert(s.contains(s[0]) || true);
            if s[0] == '\u{1b}' {
                assert(s.contains('\u{1b}'));
            }
        }
        assert forall|c: char| s.drop_first().contains(c) implies s.contains(c) by {
            let k = choose|k: int| 0 <= k < s.drop_first().len() && s.drop_first()[k] == c;
            assert(s[k + 1] == c);
        }
        law_strip_ansi_keeps_plain_text(s.drop_first());
        assert(seq![s[0]] + s.drop_first() =~= s);
    }
}

/// The stderr lines kept while a session runs: at most eight, each without
/// its escape sequences.
pub fn record_stderr_line(lines: &mut Vec<String>, line: &str)
    ensures
        old(lines)@.len() < 8 ==> final(lines).deep_view() == old(lines).deep_view().push(
            strip_ansi_view(line@),
        ),
        old(lines)@.len() >= 8 ==> final(lines).deep_view() == old(lines).deep_view(),
{
    if lines.len() < 8 {
        let clean = strip_ansi(line);
        let ghost before = lines.deep_view();
        lines.push(clean);
        assert(lines.deep_view() =~= before.push(strip_ansi_view(line@)));
    }
}

// ------------------------------------------------------------------------
// JSON-RPC replies
// ------------------------------------------------------------------------

/// How one line from the `app-server` bears on a pending request.
#[derive(Clone, Copy, PartialEq, Eq, Structural, Debug)]
pub enum ReplyKind {
    /// Its `id` is not the request's: the line is skipped.
    Unrelated,
    /// It answers the request with an `error` member.
    Failed,
    /// It answers the request.
    Answered,
}

/// How a reply bears on the request with the given id.
pub open spec fn reply_kind_view(reply: Json, id: u64) -> ReplyKind {
    let reply_id = match reply.field("id"@) {
        Some(v) => v.uint64(),
        None => None,
    };
    if reply_id != Some(id) {
        ReplyKind::Unrelated
    } else if reply.field("error"@) is Some {
        ReplyKind::Failed
    } else {
        ReplyKind::Answered
    }
}

/// How a reply bears on the request with the given id.
pub fn classify_reply(reply: &Json, id: u64) -> (r: ReplyKind)
    ensures
        r == reply_kind_view(*reply, id),
{
    let reply_id = match reply.get("id") {
        Some(v) => v.as_u64(),
        None => None,
    };
    if reply_id != Some(id) {
        return ReplyKind::Unrelated;
    }
    if reply.get("error").is_some() {
        ReplyKind::Failed
    } else {
        ReplyKind::Answered
    }
}

/// The result of an answered request: its `result` member, `null` where it
/// has none.
pub open spec fn reply_result_view(reply: Json) -> Json {
    match reply.field("result"@) {
        Some(v) => v,
        None => Json::Null,
    }
}

/// The result of an answered request (see `reply_result_view`).
pub fn reply_result(reply: Json) -> (r: Json)
    ensures
        r == reply_result_view(reply),
{
    let ghost whole = reply;
    match reply {
        Json::Object(mut entries) => {
            let key = chars_of("result");
            let mut i: usize = 0;
            assert(entries@.skip(0) =~= entries@);
            while i < entries.len()
                invariant
                    i <= entries@.len(),
                    key@ == "result"@,
                    whole == reply,
                    whole == Json::Object(entries),
                    whole.field("result"@) == crate::json::entry_lookup(
                        entries@.skip(i as int),
                        "result"@,
                    ),
                decreases entries@.len() - i,
            {
                assert(entries@.skip(i as int).drop_first() =~= entries@.skip(i as int + 1));
                assert(entries@.skip(i as int)[0] == entries@[i as int]);
                let name = chars_of(entries[i].0.as_str());
                if crate::text::seq_eq(&name, &key) {
                    let ghost found = entries@[i as int].1;
                    assert(reply_result_view(whole) == found);
                    let (_, value) = entries.remove(i);
                    assert(value == found);
                    return value;
                }
                i = i + 1;
            }
            Json::Null
        },
        _ => Json::Null,
    }
}

/// The message of a request whose reply carries an error: the method and
/// the error's JSON text, cut after 500 bytes.
pub open spec fn call_failed_view(method: Seq<char>, error_json: Seq<char>) -> Seq<char> {
    "Codex `"@ + method + "` 调用失败："@ + clipped(error_json, 500)
}

/// The message of a request whose reply carries an error (see
/// `call_failed_view`); `error_json` is the error member written as JSON.
pub fn call_failed_message(method: &str, error_json: &str) -> (r: String)
    requires
        cuts_cleanly(error_json@, 500),
    ensures
        r@ == call_failed_view(method@, error_json@),
{
    let compact = clip_text(error_json, 500);
    let a = concat("Codex `", method);
    let b = concat(a.as_str(), "` 调用失败：");
    concat(b.as_str(), compact.as_str())
}

/// The message of a request that got no reply in time: the method, and
/// the stderr lines kept so far joined by ` | ` (or a note that there were
/// none).
pub open spec fn timeout_view(method: Seq<char>, stderr_lines: Seq<Seq<char>>) -> Seq<char> {
    let joined = join_with(stderr_lines, " | "@);
    let shown = if joined.len() == 0 {
        "没有 stderr 输出"@
    } else {
        joined
    };
    "等待 Codex `"@ + method + "` 响应超时（"@ + shown + "）。"@
}

/// The message of a request that got no reply in time (see
/// `timeout_view`).
pub fn timeout_message(method: &str, stderr_lines: &Vec<String>) -> (r: String)
    ensures
        r@ == timeout_view(method@, stderr_lines.deep_view()),
{
    let joined = join_strings(stderr_lines, " | ");
    let shown = if chars_of(joined.as_str()).len() == 0 {
        owned("没有 stderr 输出")
    } else {
        joined
    };
    let a = concat("等待 Codex `", method);
    let b = concat(a.as_str(), "` 响应超时（");
    let c = concat(b.as_str(), shown.as_str());
    concat(c.as_str(), "）。")
}

// ------------------------------------------------------------------------
// Finding the CLI
// ------------------------------------------------------------------------

/// The message shown when no Codex CLI is found.
pub open spec fn cli_missing_view() -> Seq<char> {
    "未找到 Codex CLI：请确认终端可执行 `codex --version`，或将 codex.exe 所在目录加入系统 PATH。已检查 CODEX_CLI_PATH、PATH 和常见编辑器扩展目录。"@
}

/// The CLI to use: the one named by `CODEX_CLI_PATH` where that is a file,
/// else the first one found on `PATH`, else the first one found in an
/// editor extension; an error when there is none.
pub fn pick_codex_cli(
    from_env: Option<String>,
    on_path: Option<String>,
    in_extension: Option<String>,
) -> (r: Result<String, CodexError>)
    ensures
        match r {
            Ok(p) => p@ == (if from_env is Some {
                from_env->0@
            } else if on_path is Some {
                on_path->0@
            } else {
                in_extension->0@
            }),
            Err(e) => from_env is None && on_path is None && in_extension is None && e.message@
                == cli_missing_view(),
        },
        r is Err <==> (from_env is None && on_path is None && in_extension is None),
{
    if let Some(p) = from_env {
        return Ok(p);
    }
    if let Some(p) = on_path {
        return Ok(p);
    }
    if let Some(p) = in_extension {
        return Ok(p);
    }
    Err(
        CodexError::new(
            owned(
                "未找到 Codex CLI：请确认终端可执行 `codex --version`，或将 codex.exe 所在目录加入系统 PATH。已检查 CODEX_CLI_PATH、PATH 和常见编辑器扩展目录。",
            ),
        ),
    )
}

/// The file names under which the CLI is looked for on `PATH`.
pub open spec fn executable_names_view(windows: bool) -> Seq<Seq<char>> {
    if windows {
        seq!["codex.exe"@, "codex.cmd"@, "codex.bat"@, "codex"@]
    } else {
        seq!["codex"@]
    }
}

/// The file names under which the CLI is looked for on `PATH`, on Windows
/// or elsewhere.
pub fn codex_executable_names(windows: bool) -> (r: Vec<String>)
    ensures
        r.deep_view() == executable_names_view(windows),
{
    let mut r: Vec<String> = Vec::new();
    if windows {
        r.push(owned("codex.exe"));
        r.push(owned("codex.cmd"));
        r.push(owned("codex.bat"));
    }
    r.push(owned("codex"));
    assert(r.deep_view() =~= executable_names_view(windows));
    r
}

/// The editor extension directories, relative to the user profile, in
/// which the CLI is looked for.
pub open spec fn extension_roots_view() -> Seq<Seq<char>> {
    seq![
        ".vscode\\extensions"@,
        ".vscode-insiders\\extensions"@,
        ".cursor\\extensions"@,
        ".windsurf\\extensions"@,
    ]
}

/// The editor extension directories, relative to the user profile.
pub fn extension_roots() -> (r: Vec<String>)
    ensures
        r.deep_view() == extension_roots_view(),
{
    let mut r: Vec<String> = Vec::new();
    r.push(owned(".vscode\\extensions"));
    r.push(owned(".vscode-insiders\\extensions"));
    r.push(owned(".cursor\\extensions"));
    r.push(owned(".windsurf\\extensions"));
    assert(r.deep_view() =~= extension_roots_view());
    r
}

/// Where the CLI may lie inside an extension directory.
pub open spec fn extension_candidates_view() -> Seq<Seq<char>> {
    seq![
        "bin\\windows-x86_64\\codex.exe"@,
        "bin\\windows-aarch64\\codex.exe"@,
        "bin\\codex.exe"@,
    ]
}

/// Where the CLI may lie inside an extension directory.
pub fn extension_codex_candidates() -> (r: Vec<String>)
    ensures
        r.deep_view() == extension_candidates_view(),
{
    let mut r: Vec<String> = Vec::new();
    r.push(owned("bin\\windows-x86_64\\codex.exe"));
    r.push(owned("bin\\windows-aarch64\\codex.exe"));
    r.push(owned("bin\\codex.exe"));
    assert(r.deep_view() =~= extension_candidates_view());
    r
}

/// Whether an extension directory is one of OpenAI's: its name, ASCII
/// lower-cased, begins with `openai.chatgpt-` or `openai.codex-`.
pub open spec fn is_codex_extension_view(name: Seq<char>) -> bool {
    starts_with(lowercase(name), "openai.chatgpt-"@) || starts_with(
        lowercase(name),
        "openai.codex-"@,
    )
}

/// Whether an extension directory is one of OpenAI's (see
/// `is_codex_extension_view`).
pub fn is_codex_extension_dir(name: &str) -> (r: bool)
    ensures
        r == is_codex_extension_view(name@),
{
    let lower = lowercase_chars(name);
    chars_begin_with(&lower, "openai.chatgpt-") || chars_begin_with(&lower, "openai.codex-")
}

/// The result of `codex --version`: success, or an error with its stderr
/// text trimmed.
pub open spec fn version_check_view(success: bool, stderr: Seq<char>) -> Result<(), Seq<char>> {
    if success {
        Ok(())
    } else {
        Err("`codex --version` 执行失败："@ + trim(stderr))
    }
}

/// The result of `codex --version` (see `version_check_view`).
pub fn version_check(success: bool, stderr: &str) -> (r: Result<(), CodexError>)
    ensures
        match version_check_view(success, stderr@) {
            Ok(_) => r is Ok,
            Err(m) => r matches Err(e) && e.message@ == m,
        },
{
    if success {
        Ok(())
    } else {
        let t = trim_chars(&chars_of(stderr));
        let text = string_from(&t);
        Err(CodexError::new(concat("`codex --version` 执行失败：", text.as_str())))
    }
}

} // verus!
