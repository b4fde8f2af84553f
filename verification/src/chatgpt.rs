//! The ChatGPT data source: how a Codex session becomes a usage snapshot.

use vstd::prelude::*;
use crate::clock::{now_rfc3339, rfc3339_of_unix_seconds, utc_rfc3339};
use crate::codex::{CodexError, CodexSnapshot};
use crate::decimal::{decimal, i64_to_decimal, signed_decimal, u64_to_decimal};
use crate::http_source::{clamp_percent, join_strings, join_with, member_text, opt_text, percent_of};
use crate::json::{FloatBits, Json, opt_ref};
use crate::text::{
    chars_begin_with, chars_of, clip_text, clipped, concat, cuts_cleanly, owned, starts_with,
    str_eq, string_from, slice_chars, text_cuts_cleanly,
};
use crate::usage::{
    BucketView, DiagnosticsView, MeterItemView, ProviderUsage, ProviderUsageStatus,
    UsageDiagnosticBucket, UsageDiagnostics, UsageView, UsageWindow, WindowUsageView,
};

verus! {

/// The member `key` of an optional value.
pub open spec fn member_of(v: Option<Json>, key: Seq<char>) -> Option<Json> {
    match v {
        Some(x) => x.field(key),
        None => None,
    }
}

fn member_of_exec<'a>(v: Option<&'a Json>, key: &str) -> (r: Option<&'a Json>)
    ensures
        opt_ref(r) == member_of(opt_ref(v), key@),
{
    match v {
        Some(x) => x.get(key),
        None => None,
    }
}

/// How the account is named: its e-mail for a ChatGPT login, the kind of
/// key for an API key or Bedrock, a generic name otherwise.
pub open spec fn account_label_view(account: Json) -> Seq<char> {
    match opt_text(account.field("type"@)) {
        Some(t) => if t == "chatgpt"@ {
            match opt_text(account.field("email"@)) {
                Some(e) => e,
                None => "ChatGPT 账号"@,
            }
        } else if t == "apiKey"@ {
            "OpenAI API Key"@
        } else if t == "amazonBedrock"@ {
            "Amazon Bedrock"@
        } else {
            "AI 数据源账号"@
        },
        None => "AI 数据源账号"@,
    }
}

/// How the account is named (see `account_label_view`).
pub fn account_label(account: &Json) -> (r: Option<String>)
    ensures
        r.deep_view() == Some(account_label_view(*account)),
{
    match account.get("type") {
        Some(t) => match t.as_str() {
            Some(kind) => {
                if str_eq(kind, "chatgpt") {
                    match member_text(account.get("email")) {
                        Some(e) => Some(e),
                        None => Some(owned("ChatGPT 账号")),
                    }
                } else if str_eq(kind, "apiKey") {
                    Some(owned("OpenAI API Key"))
                } else if str_eq(kind, "amazonBedrock") {
                    Some(owned("Amazon Bedrock"))
                } else {
                    Some(owned("AI 数据源账号"))
                }
            },
            None => Some(owned("AI 数据源账号")),
        },
        None => Some(owned("AI 数据源账号")),
    }
}

/// The display name of a plan type; unknown types are shown as they are.
pub open spec fn plan_label_view(value: Seq<char>) -> Seq<char> {
    if value == "free"@ {
        "Free"@
    } else if value == "go"@ {
        "Go"@
    } else if value == "plus"@ {
        "Plus"@
    } else if value == "pro"@ {
        "Pro"@
    } else if value == "prolite"@ {
        "Pro Lite"@
    } else if value == "team"@ {
        "Team"@
    } else if value == "business"@ {
        "Business"@
    } else if value == "enterprise"@ {
        "Enterprise"@
    } else if value == "edu"@ {
        "Edu"@
    } else if value == "unknown"@ {
        "未知"@
    } else {
        value
    }
}

/// The display name of a plan type (see `plan_label_view`).
pub fn plan_label(value: &str) -> (r: String)
    ensures
        r@ == plan_label_view(value@),
{
    if str_eq(value, "free") {
        owned("Free")
    } else if str_eq(value, "go") {
        owned("Go")
    } else if str_eq(value, "plus") {
        owned("Plus")
    } else if str_eq(value, "pro") {
        owned("Pro")
    } else if str_eq(value, "prolite") {
        owned("Pro Lite")
    } else if str_eq(value, "team") {
        owned("Team")
    } else if str_eq(value, "business") {
        owned("Business")
    } else if str_eq(value, "enterprise") {
        owned("Enterprise")
    } else if str_eq(value, "edu") {
        owned("Edu")
    } else if str_eq(value, "unknown") {
        owned("未知")
    } else {
        owned(value)
    }
}

// ------------------------------------------------------------------------
// Rate-limit buckets
// ------------------------------------------------------------------------

/// The bucket a selected window id names: for `codex-<bucket>-<key>`, the
/// text between `codex-` and the last `-`.
pub open spec fn selected_bucket(selected: Option<Seq<char>>) -> Option<Seq<char>> {
    match selected {
        Some(s) => if starts_with(s, "codex-"@) {
            match crate::json::last_index(s.skip(6), '-') {
                Some(k) => Some(s.skip(6).take(k)),
                None => None,
            }
        } else {
            None
        },
        None => None,
    }
}

fn selected_bucket_exec(selected: Option<&str>) -> (r: Option<Vec<char>>)
    ensures
        match r {
            Some(b) => selected_bucket(opt_str_view(selected)) == Some(b@),
            None => selected_bucket(opt_str_view(selected)) is None,
        },
{
    match selected {
        Some(s) => {
            let v = chars_of(s);
            if !chars_begin_with(&v, "codex-") {
                return None;
            }
            proof {
                reveal_strlit("codex-");
            }
            let rest = slice_chars(&v, 6, v.len());
            assert(rest@ =~= s@.skip(6));
            let mut j: usize = rest.len();
            assert(rest@.take(rest@.len() as int) =~= rest@);
            while j > 0 && rest[j - 1] != '-'
                invariant
                    j <= rest@.len(),
                    crate::json::last_index(rest@, '-') == crate::json::last_index(
                        rest@.take(j as int),
                        '-',
                    ),
                decreases j,
            {
                assert(rest@.take(j as int).drop_last() =~= rest@.take(j - 1));
                j = j - 1;
            }
            if j == 0 {
                assert(rest@.take(0) =~= Seq::<char>::empty());
                None
            } else {
                let b = slice_chars(&rest, 0, j - 1);
                assert(b@ =~= rest@.take(j - 1));
                Some(b)
            }
        },
        None => None,
    }
}

/// An optional string slice read as optional characters.
pub open spec fn opt_str_view(s: Option<&str>) -> Option<Seq<char>> {
    match s {
        Some(t) => Some(t@),
        None => None,
    }
}

/// The first member of an optional object.
pub open spec fn first_member(v: Option<Json>) -> Option<Json> {
    match v {
        Some(x) => match x.members() {
            Some(m) => if m.len() > 0 {
                Some(m[0].1)
            } else {
                None
            },
            None => None,
        },
        None => None,
    }
}

/// The rate-limit snapshot to read credits and the pool name from: the
/// bucket of the selected window, else the `codex` bucket, else the first
/// bucket, else the single `rateLimits` snapshot.
pub open spec fn select_view(value: Json, selected: Option<Seq<char>>) -> Option<Json> {
    let buckets = value.field("rateLimitsByLimitId"@);
    let chosen = match selected_bucket(selected) {
        Some(b) => member_of(buckets, b),
        None => None,
    };
    if chosen is Some {
        chosen
    } else if member_of(buckets, "codex"@) is Some {
        member_of(buckets, "codex"@)
    } else if first_member(buckets) is Some {
        first_member(buckets)
    } else {
        value.field("rateLimits"@)
    }
}

/// The rate-limit snapshot that the selected window belongs to (see
/// `select_view`).
pub fn select_rate_limit_snapshot<'a>(value: &'a Json, selected_window_id: Option<&str>) -> (r:
    Option<&'a Json>)
    ensures
        opt_ref(r) == select_view(*value, opt_str_view(selected_window_id)),
{
    let buckets = value.get("rateLimitsByLimitId");
    if let Some(bucket) = selected_bucket_exec(selected_window_id) {
        let name = string_from(&bucket);
        if let Some(found) = member_of_exec(buckets, name.as_str()) {
            return Some(found);
        }
    }
    if let Some(found) = member_of_exec(buckets, "codex") {
        return Some(found);
    }
    if let Some(b) = buckets {
        if let Some(members) = b.as_object() {
            if members.len() > 0 {
                return Some(&members[0].1);
            }
        }
    }
    value.get("rateLimits")
}

/// `timestamp_to_rfc3339`: a UNIX time in seconds, or in milliseconds
/// where it exceeds 10^10, written as RFC 3339.
pub open spec fn timestamp_view(v: Json) -> Option<Seq<char>> {
    match v.int64() {
        Some(raw) => utc_rfc3339(
            if raw > 10_000_000_000 {
                (raw / 1000) as i64
            } else {
                raw
            },
        ),
        None => None,
    }
}

/// A timestamp member written as RFC 3339 (see `timestamp_view`).
pub fn timestamp_to_rfc3339(value: &Json) -> (r: Option<String>)
    ensures
        r.deep_view() == timestamp_view(*value),
{
    let raw = match value.as_i64() {
        Some(raw) => raw,
        None => {
            return None;
        },
    };
    let seconds: i64 = if raw > 10_000_000_000 {
        ((raw as u64) / 1000) as i64
    } else {
        raw
    };
    rfc3339_of_unix_seconds(seconds)
}

/// The window that a rate-limit window reports: its used share rounded
/// and clamped to 0..=100, the rest as remaining, its length in minutes
/// and its reset time; `None` without a numeric `usedPercent`.
pub open spec fn map_window_view(
    bucket_id: Seq<char>,
    window_key: Seq<char>,
    label: Seq<char>,
    limit_name: Seq<char>,
    value: Json,
) -> Option<WindowUsageView> {
    match value.field("usedPercent"@) {
        Some(p) => match p.float() {
            Some(f) => {
                let used = clamp_percent(f);
                let duration = match value.field("windowDurationMins"@) {
                    Some(d) => match d.int64() {
                        Some(m) => signed_decimal(m as int) + " 分钟"@,
                        None => "用量窗口"@,
                    },
                    None => "用量窗口"@,
                };
                Some(
                    WindowUsageView {
                        id: "codex-"@ + bucket_id + "-"@ + window_key,
                        label,
                        used_percent: used,
                        remaining_percent: (100 - used) as u8,
                        value_label: None,
                        resets_at: match value.field("resetsAt"@) {
                            Some(t) => timestamp_view(t),
                            None => None,
                        },
                        limit_label: Some(limit_name + " / "@ + duration),
                        bucket_id: Some(bucket_id),
                        window_key: Some(window_key),
                    },
                )
            },
            None => None,
        },
        None => None,
    }
}

/// The window that a rate-limit window reports (see `map_window_view`).
pub fn map_window(bucket_id: &str, window_key: &str, label: &str, limit_name: &str, value: &Json) -> (r:
    Option<UsageWindow>)
    ensures
        match r {
            Some(w) => map_window_view(bucket_id@, window_key@, label@, limit_name@, *value)
                == Some(w.deep_view()),
            None => map_window_view(bucket_id@, window_key@, label@, limit_name@, *value) is None,
        },
{
    let reading = match value.get("usedPercent") {
        Some(p) => match p.as_f64() {
            Some(f) => f,
            None => {
                return None;
            },
        },
        None => {
            return None;
        },
    };
    let used = percent_of(reading);
    let remaining: u8 = 100 - used;
    let duration = match value.get("windowDurationMins") {
        Some(d) => match d.as_i64() {
            Some(m) => concat(i64_to_decimal(m).as_str(), " 分钟"),
            None => owned("用量窗口"),
        },
        None => owned("用量窗口"),
    };
    let resets_at = match value.get("resetsAt") {
        Some(t) => timestamp_to_rfc3339(t),
        None => None,
    };
    let a = concat("codex-", bucket_id);
    let b = concat(a.as_str(), "-");
    let id = concat(b.as_str(), window_key);
    let l = concat(limit_name, " / ");
    let limit = concat(l.as_str(), duration.as_str());
    Some(
        UsageWindow {
            id,
            label: owned(label),
            used_percent: used,
            remaining_percent: remaining,
            value_label: None,
            resets_at,
            limit_label: Some(limit),
            bucket_id: Some(owned(bucket_id)),
            window_key: Some(owned(window_key)),
        },
    )
}

/// The window of one key of a rate-limit snapshot, as a list of at most
/// one.
pub open spec fn keyed_window(
    snapshot: Json,
    bucket_id: Seq<char>,
    key: Seq<char>,
    label: Seq<char>,
    limit_name: Seq<char>,
) -> Seq<WindowUsageView> {
    match snapshot.field(key) {
        Some(v) => match map_window_view(bucket_id, key, label, limit_name, v) {
            Some(w) => seq![w],
            None => Seq::empty(),
        },
        None => Seq::empty(),
    }
}

/// The windows of one rate-limit snapshot: its primary window, then its
/// secondary one, each where it reports a used share.
pub open spec fn rate_limit_windows_view(snapshot: Json) -> Seq<WindowUsageView> {
    let bucket = match opt_text(snapshot.field("limitId"@)) {
        Some(t) => t,
        None => "default"@,
    };
    let name = match opt_text(snapshot.field("limitName"@)) {
        Some(t) => t,
        None => "Codex"@,
    };
    keyed_window(snapshot, bucket, "primary"@, "主用量窗口"@, name) + keyed_window(
        snapshot,
        bucket,
        "secondary"@,
        "次用量窗口"@,
        name,
    )
}

/// The windows of one rate-limit snapshot (see `rate_limit_windows_view`).
pub fn rate_limit_windows(snapshot: &Json) -> (r: Vec<UsageWindow>)
    ensures
        r.deep_view() == rate_limit_windows_view(*snapshot),
{
    let bucket = match snapshot.get("limitId") {
        Some(t) => match t.as_str() {
            Some(s) => owned(s),
            None => owned("default"),
        },
        None => owned("default"),
    };
    let name = match snapshot.get("limitName") {
        Some(t) => match t.as_str() {
            Some(s) => owned(s),
            None => owned("Codex"),
        },
        None => owned("Codex"),
    };
    let mut windows: Vec<UsageWindow> = Vec::new();
    if let Some(primary) = snapshot.get("primary") {
        if let Some(w) = map_window(bucket.as_str(), "primary", "主用量窗口", name.as_str(), primary) {
            windows.push(w);
        }
    }
    let ghost first = windows.deep_view();
    assert(first =~= keyed_window(*snapshot, bucket@, "primary"@, "主用量窗口"@, name@));
    if let Some(secondary) = snapshot.get("secondary") {
        if let Some(w) = map_window(bucket.as_str(), "secondary", "次用量窗口", name.as_str(), secondary) {
            windows.push(w);
        }
    }
    assert(windows.deep_view() =~= rate_limit_windows_view(*snapshot));
    windows
}

/// The windows of every bucket, bucket after bucket.
pub open spec fn bucket_windows(entries: Seq<(String, Json)>) -> Seq<WindowUsageView>
    decreases entries.len(),
{
    if entries.len() == 0 {
        Seq::empty()
    } else {
        bucket_windows(entries.drop_last()) + rate_limit_windows_view(entries.last().1)
    }
}

/// All windows of a rate-limit reply: those of every bucket of
/// `rateLimitsByLimitId` where that is an object, else those of
/// `rateLimits`.
pub open spec fn all_windows_view(value: Json) -> Seq<WindowUsageView> {
    match value.field("rateLimitsByLimitId"@) {
        Some(b) if b.members() is Some => bucket_windows(b.members()->0),
        _ => match value.field("rateLimits"@) {
            Some(s) => rate_limit_windows_view(s),
            None => Seq::empty(),
        },
    }
}

/// All windows of a rate-limit reply (see `all_windows_view`).
pub fn all_rate_limit_windows(value: &Json) -> (r: Vec<UsageWindow>)
    ensures
        r.deep_view() == all_windows_view(*value),
{
    if let Some(b) = value.get("rateLimitsByLimitId") {
        if let Some(members) = b.as_object() {
            let mut out: Vec<UsageWindow> = Vec::new();
            let mut i: usize = 0;
            assert(members@.take(0) =~= Seq::<(String, Json)>::empty());
            while i < members.len()
                invariant
                    i <= members@.len(),
                    out.deep_view() == bucket_windows(members@.take(i as int)),
                decreases members@.len() - i,
            {
                let mut ws = rate_limit_windows(&members[i].1);
                let ghost before = out.deep_view();
                out.append(&mut ws);
                assert(members@.take(i + 1).drop_last() =~= members@.take(i as int));
                assert(members@.take(i + 1).last() == members@[i as int]);
                assert(out.deep_view() =~= before + rate_limit_windows_view(members@[i as int].1));
                i = i + 1;
            }
            assert(members@.take(members@.len() as int) =~= members@);
            return out;
        }
    }
    match value.get("rateLimits") {
        Some(s) => rate_limit_windows(s),
        None => Vec::new(),
    }
}

// ------------------------------------------------------------------------
// Window order
// ------------------------------------------------------------------------

/// The windows whose id is `id`, in order.
pub open spec fn with_id(ws: Seq<WindowUsageView>, id: Seq<char>) -> Seq<WindowUsageView>
    decreases ws.len(),
{
    if ws.len() == 0 {
        Seq::empty()
    } else if ws.last().id == id {
        with_id(ws.drop_last(), id).push(ws.last())
    } else {
        with_id(ws.drop_last(), id)
    }
}

/// The windows whose id is not `id`, in order.
pub open spec fn without_id(ws: Seq<WindowUsageView>, id: Seq<char>) -> Seq<WindowUsageView>
    decreases ws.len(),
{
    if ws.len() == 0 {
        Seq::empty()
    } else if ws.last().id != id {
        without_id(ws.drop_last(), id).push(ws.last())
    } else {
        without_id(ws.drop_last(), id)
    }
}

/// The windows with the selected one moved to the front: a stable sort on
/// "is the selected window"; unchanged when nothing is selected.
pub open spec fn selected_first(ws: Seq<WindowUsageView>, selected: Option<Seq<char>>) -> Seq<
    WindowUsageView,
> {
    match selected {
        Some(id) => with_id(ws, id) + without_id(ws, id),
        None => ws,
    }
}

/// Moves the selected window to the front, keeping the order of the rest
/// (see `selected_first`).
pub fn sort_selected_window(windows: &mut Vec<UsageWindow>, selected_window_id: Option<&str>)
    ensures
        final(windows).deep_view() == selected_first(
            old(windows).deep_view(),
            opt_str_view(selected_window_id),
        ),
{
    let id = match selected_window_id {
        Some(id) => id,
        None => {
            return;
        },
    };
    let mut front: Vec<UsageWindow> = Vec::new();
    let mut back: Vec<UsageWindow> = Vec::new();
    let mut i: usize = 0;
    assert(windows.deep_view().take(0) =~= Seq::<WindowUsageView>::empty());
    while i < windows.len()
        invariant
            i <= windows@.len(),
            front.deep_view() == with_id(windows.deep_view().take(i as int), id@),
            back.deep_view() == without_id(windows.deep_view().take(i as int), id@),
        decreases windows@.len() - i,
    {
        let ghost ws = windows.deep_view();
        assert(ws.take(i + 1).drop_last() =~= ws.take(i as int));
        assert(ws.take(i + 1).last() == windows@[i as int].deep_view());
        let w = windows[i].copy();
        if str_eq(w.id.as_str(), id) {
            let ghost before = front.deep_view();
            front.push(w);
            assert(front.deep_view() =~= before.push(windows@[i as int].deep_view()));
        } else {
            let ghost before = back.deep_view();
            back.push(w);
            assert(back.deep_view() =~= before.push(windows@[i as int].deep_view()));
        }
        i = i + 1;
    }
    let ghost all = windows.deep_view();
    assert(all.take(all.len() as int) =~= all);
    let ghost f = front.deep_view();
    let ghost b = back.deep_view();
    front.append(&mut back);
    assert(front.deep_view() =~= f + b);
    *windows = front;
}

proof fn lemma_with_id_matches(ws: Seq<WindowUsageView>, id: Seq<char>)
    ensures
        forall|k: int| 0 <= k < with_id(ws, id).len() ==> (#[trigger] with_id(ws, id)[k]).id == id,
        (exists|i: int| 0 <= i < ws.len() && (#[trigger] ws[i]).id == id) ==> with_id(ws, id).len()
            > 0,
    decreases ws.len(),
{
    if ws.len() > 0 {
        lemma_with_id_matches(ws.drop_last(), id);
        if exists|i: int| 0 <= i < ws.len() && (#[trigger] ws[i]).id == id {
            let i = choose|i: int| 0 <= i < ws.len() && (#[trigger] ws[i]).id == id;
            if i < ws.len() - 1 {
                assert(ws.drop_last()[i] == ws[i]);
            }
        }
    }
}

proof fn lemma_split_multiset(ws: Seq<WindowUsageView>, id: Seq<char>)
    ensures
        with_id(ws, id).to_multiset().add(without_id(ws, id).to_multiset()) == ws.to_multiset(),
    decreases ws.len(),
{
    broadcast use vstd::seq_lib::to_multiset_build, vstd::multiset::group_multiset_axioms;

    if ws.len() == 0 {
        assert(ws.to_multiset() =~= vstd::multiset::Multiset::empty()) by {
            vstd::seq_lib::lemma_multiset_commutative(ws, ws);
            assert(ws + ws =~= ws);
        }
        assert(with_id(ws, id) =~= ws);
        assert(without_id(ws, id) =~= ws);
    } else {
        lemma_split_multiset(ws.drop_last(), id);
        assert(ws.drop_last().push(ws.last()) =~= ws);
    }
}

/// Moving the selected window to the front loses and adds no window, and
/// where some window has the selected id, the first window has it.
pub proof fn law_selected_window_first(ws: Seq<WindowUsageView>, id: Seq<char>)
    ensures
        selected_first(ws, Some(id)).to_multiset() == ws.to_multiset(),
        selected_first(ws, Some(id)).len() == ws.len(),
        (exists|i: int| 0 <= i < ws.len() && (#[trigger] ws[i]).id == id) ==> selected_first(
            ws,
            Some(id),
        )[0].id == id,
{
    lemma_split_multiset(ws, id);
    lemma_with_id_matches(ws, id);
    vstd::seq_lib::lemma_multiset_commutative(with_id(ws, id), without_id(ws, id));
    vstd::seq_lib::to_multiset_len(selected_first(ws, Some(id)));
    vstd::seq_lib::to_multiset_len(ws);
    if exists|i: int| 0 <= i < ws.len() && (#[trigger] ws[i]).id == id {
        assert(with_id(ws, id)[0].id == id);
        assert(selected_first(ws, Some(id))[0] == with_id(ws, id)[0]);
    }
}

// ------------------------------------------------------------------------
// Diagnostics
// ------------------------------------------------------------------------

/// What the diagnostics record of one bucket: its id and name, and the ids
/// of its primary and secondary windows where these report a used share.
pub open spec fn diagnostic_bucket_view(id: Seq<char>, snapshot: Json) -> BucketView {
    BucketView {
        id,
        name: opt_text(snapshot.field("limitName"@)),
        primary_window_id: if member_of(snapshot.field("primary"@), "usedPercent"@) is Some {
            Some("codex-"@ + id + "-primary"@)
        } else {
            None
        },
        secondary_window_id: if member_of(snapshot.field("secondary"@), "usedPercent"@) is Some {
            Some("codex-"@ + id + "-secondary"@)
        } else {
            None
        },
    }
}

/// What the diagnostics record of one bucket (see `diagnostic_bucket_view`).
pub fn diagnostic_bucket(bucket_id: &str, snapshot: &Json) -> (r: UsageDiagnosticBucket)
    ensures
        r.deep_view() == diagnostic_bucket_view(bucket_id@, *snapshot),
{
    let primary = if member_of_exec(snapshot.get("primary"), "usedPercent").is_some() {
        let a = concat("codex-", bucket_id);
        Some(concat(a.as_str(), "-primary"))
    } else {
        None
    };
    let secondary = if member_of_exec(snapshot.get("secondary"), "usedPercent").is_some() {
        let a = concat("codex-", bucket_id);
        Some(concat(a.as_str(), "-secondary"))
    } else {
        None
    };
    UsageDiagnosticBucket {
        id: owned(bucket_id),
        name: member_text(snapshot.get("limitName")),
        primary_window_id: primary,
        secondary_window_id: secondary,
    }
}

/// The buckets of a rate-limit reply as the diagnostics record them: every
/// member of `rateLimitsByLimitId` where that is an object, else the single
/// `rateLimits` snapshot under the id `default`.
pub open spec fn diagnostic_buckets_view(rate_limits: Option<Json>) -> Seq<BucketView> {
    match rate_limits {
        None => Seq::empty(),
        Some(r) => match r.field("rateLimitsByLimitId"@) {
            Some(b) if b.members() is Some => b.members()->0.map_values(
                |e: (String, Json)| diagnostic_bucket_view(e.0@, e.1),
            ),
            _ => match r.field("rateLimits"@) {
                Some(s) => seq![diagnostic_bucket_view("default"@, s)],
                None => Seq::empty(),
            },
        },
    }
}

/// The buckets of a rate-limit reply (see `diagnostic_buckets_view`).
pub fn diagnostic_buckets(rate_limits: Option<&Json>) -> (r: Vec<UsageDiagnosticBucket>)
    ensures
        r.deep_view() == diagnostic_buckets_view(opt_ref(rate_limits)),
{
    let rate_limits = match rate_limits {
        Some(r) => r,
        None => {
            return Vec::new();
        },
    };
    if let Some(b) = rate_limits.get("rateLimitsByLimitId") {
        if let Some(members) = b.as_object() {
            let mut out: Vec<UsageDiagnosticBucket> = Vec::new();
            let mut i: usize = 0;
            while i < members.len()
                invariant
                    i <= members@.len(),
                    out@.len() == i,
                    forall|k: int|
                        0 <= k < i ==> #[trigger] out@[k].deep_view() == diagnostic_bucket_view(
                            members@[k].0@,
                            members@[k].1,
                        ),
                decreases members@.len() - i,
            {
                out.push(diagnostic_bucket(members[i].0.as_str(), &members[i].1));
                i = i + 1;
            }
            assert(out.deep_view() =~= members@.map_values(
                |e: (String, Json)| diagnostic_bucket_view(e.0@, e.1),
            ));
            return out;
        }
    }
    let mut out: Vec<UsageDiagnosticBucket> = Vec::new();
    if let Some(s) = rate_limits.get("rateLimits") {
        out.push(diagnostic_bucket("default", s));
    }
    assert(out.deep_view() =~= diagnostic_buckets_view(Some(*rate_limits)));
    out
}

/// Whether the account reply says that OpenAI authentication is required
/// (`requiresOpenaiAuth`, false where absent or not a boolean).
pub open spec fn requires_auth_view(account: Json) -> bool {
    match account.field("requiresOpenaiAuth"@) {
        Some(b) => match b.boolean() {
            Some(x) => x,
            None => false,
        },
        None => false,
    }
}

fn requires_auth(account: &Json) -> (r: bool)
    ensures
        r == requires_auth_view(*account),
{
    match account.get("requiresOpenaiAuth") {
        Some(b) => match b.as_bool() {
            Some(x) => x,
            None => false,
        },
        None => false,
    }
}

/// What the diagnostics of a session record: the CLI path, `codexHome`,
/// the selected window, the buckets, the kind of account and whether
/// OpenAI authentication is required.
pub open spec fn diagnostics_view(s: CodexSnapshot, selected: Option<Seq<char>>) -> DiagnosticsView {
    DiagnosticsView {
        codex_path: Some(s.codex_path@),
        codex_home: opt_text(s.initialize.field("codexHome"@)),
        selected_window_id: selected,
        buckets: diagnostic_buckets_view(s.rate_limits),
        raw_account_kind: opt_text(member_of(s.account.field("account"@), "type"@)),
        requires_openai_auth: requires_auth_view(s.account),
    }
}

/// What the diagnostics of a session record (see `diagnostics_view`).
pub fn diagnostics(snapshot: &CodexSnapshot, selected_window_id: Option<String>) -> (r:
    UsageDiagnostics)
    ensures
        r.deep_view() == diagnostics_view(*snapshot, selected_window_id.deep_view()),
{
    let rate_limits = match &snapshot.rate_limits {
        Some(v) => Some(v),
        None => None,
    };
    UsageDiagnostics {
        codex_path: Some(snapshot.codex_path.clone()),
        codex_home: member_text(snapshot.initialize.get("codexHome")),
        selected_window_id,
        buckets: diagnostic_buckets(rate_limits),
        raw_account_kind: member_text(member_of_exec(snapshot.account.get("account"), "type")),
        requires_openai_auth: requires_auth(&snapshot.account),
    }
}

// ------------------------------------------------------------------------
// The snapshot
// ------------------------------------------------------------------------

/// A number or numeric text as text: a string as it is, an integer in
/// decimal.
pub open spec fn number_text_view(v: Json) -> Option<Seq<char>> {
    match v.text() {
        Some(t) => Some(t),
        None => match v.int64() {
            Some(n) => Some(signed_decimal(n as int)),
            None => match v.uint64() {
                Some(n) => Some(decimal(n as nat)),
                None => None,
            },
        },
    }
}

/// A number or numeric text as text (see `number_text_view`).
pub fn number_like_to_string(value: &Json) -> (r: Option<String>)
    ensures
        r.deep_view() == number_text_view(*value),
{
    if let Some(t) = value.as_str() {
        return Some(owned(t));
    }
    if let Some(n) = value.as_i64() {
        return Some(i64_to_decimal(n));
    }
    if let Some(n) = value.as_u64() {
        return Some(u64_to_decimal(n));
    }
    None
}

/// The single window shown while no rate-limit window is known.
pub open spec fn placeholder_windows_view() -> Seq<WindowUsageView> {
    seq![
        WindowUsageView {
            id: "agentic-primary"@,
            label: "AI 用量"@,
            used_percent: 0,
            remaining_percent: 0,
            value_label: None,
            resets_at: None,
            limit_label: Some("当前数据源"@),
            bucket_id: None,
            window_key: None,
        },
    ]
}

/// The single window shown while no rate-limit window is known.
pub fn empty_windows() -> (r: Vec<UsageWindow>)
    ensures
        r.deep_view() == placeholder_windows_view(),
{
    let mut v: Vec<UsageWindow> = Vec::new();
    v.push(
        UsageWindow {
            id: owned("agentic-primary"),
            label: owned("AI 用量"),
            used_percent: 0,
            remaining_percent: 0,
            value_label: None,
            resets_at: None,
            limit_label: Some(owned("当前数据源")),
            bucket_id: None,
            window_key: None,
        },
    );
    assert(v.deep_view() =~= placeholder_windows_view());
    v
}

/// The balance of credits in a rate-limit snapshot: its
/// `credits.balance` text read as `f64`.
pub open spec fn credit_view(chosen: Option<Json>) -> Option<FloatBits> {
    match member_of(member_of(chosen, "credits"@), "balance"@) {
        Some(Json::Text(t)) => match t.reading {
            Some(r) => Some(FloatBits { bits: r.bits }),
            None => None,
        },
        _ => None,
    }
}

fn credit_balance(chosen: Option<&Json>) -> (r: Option<FloatBits>)
    ensures
        r == credit_view(opt_ref(chosen)),
{
    match member_of_exec(member_of_exec(chosen, "credits"), "balance") {
        Some(Json::Text(t)) => match t.reading {
            Some(r) => Some(FloatBits { bits: r.bits }),
            None => None,
        },
        _ => None,
    }
}

/// Whether every warning can be cut at 240 bytes, where longer warnings
/// are cut.
pub open spec fn warnings_fit(warnings: Seq<Seq<char>>) -> bool {
    forall|i: int| 0 <= i < warnings.len() ==> cuts_cleanly(#[trigger] warnings[i], 240)
}

/// Whether every warning of a session can be cut at 240 bytes, which
/// `map_snapshot` needs.
pub fn warnings_cut_cleanly(snapshot: &CodexSnapshot) -> (r: bool)
    ensures
        r == warnings_fit(snapshot.warnings.deep_view()),
{
    let mut i: usize = 0;
    while i < snapshot.warnings.len()
        invariant
            i <= snapshot.warnings@.len(),
            forall|k: int| 0 <= k < i ==> cuts_cleanly(#[trigger] snapshot.warnings@[k]@, 240),
        decreases snapshot.warnings@.len() - i,
    {
        if !text_cuts_cleanly(snapshot.warnings[i].as_str(), 240) {
            assert(snapshot.warnings.deep_view()[i as int] == snapshot.warnings@[i as int]@);
            return false;
        }
        i = i + 1;
    }
    assert forall|k: int| 0 <= k < snapshot.warnings.deep_view().len() implies cuts_cleanly(
        #[trigger] snapshot.warnings.deep_view()[k],
        240,
    ) by {
        assert(snapshot.warnings.deep_view()[k] == snapshot.warnings@[k]@);
    }
    true
}

/// The parts of the message of a signed-in session: the pool in use, a
/// note where OpenAI authentication is required, the lifetime token count,
/// then every warning cut at 240 bytes.
pub open spec fn message_parts_view(s: CodexSnapshot, chosen: Option<Json>) -> Seq<Seq<char>> {
    let pool = match opt_text(member_of(chosen, "limitName"@)) {
        Some(n) => seq!["正在使用当前连接器用量池："@ + n + "。"@],
        None => Seq::empty(),
    };
    let auth = if requires_auth_view(s.account) {
        seq!["当前数据源账号已识别，API 认证状态不可用；当前优先显示连接器返回的用量窗口。"@]
    } else {
        Seq::empty()
    };
    let tokens = match member_of(member_of(s.usage, "summary"@), "lifetimeTokens"@) {
        Some(t) => match number_text_view(t) {
            Some(x) => seq!["累计 token："@ + x + "。"@],
            None => Seq::empty(),
        },
        None => Seq::empty(),
    };
    pool + auth + tokens + s.warnings.deep_view().map_values(|w: Seq<char>| clipped(w, 240))
}

fn message_parts(snapshot: &CodexSnapshot, chosen: Option<&Json>) -> (r: Vec<String>)
    requires
        warnings_fit(snapshot.warnings.deep_view()),
    ensures
        r.deep_view() == message_parts_view(*snapshot, opt_ref(chosen)),
{
    let mut parts: Vec<String> = Vec::new();
    if let Some(n) = member_of_exec(chosen, "limitName") {
        if let Some(name) = n.as_str() {
            let a = concat("正在使用当前连接器用量池：", name);
            parts.push(concat(a.as_str(), "。"));
        }
    }
    if requires_auth(&snapshot.account) {
        parts.push(owned("当前数据源账号已识别，API 认证状态不可用；当前优先显示连接器返回的用量窗口。"));
    }
    let usage = match &snapshot.usage {
        Some(u) => Some(u),
        None => None,
    };
    if let Some(t) = member_of_exec(member_of_exec(usage, "summary"), "lifetimeTokens") {
        if let Some(x) = number_like_to_string(t) {
            let a = concat("累计 token：", x.as_str());
            parts.push(concat(a.as_str(), "。"));
        }
    }
    let ghost head = parts.deep_view();
    let ghost ws = snapshot.warnings.deep_view();
    assert(ws.map_values(|w: Seq<char>| clipped(w, 240)).take(0) =~= Seq::<Seq<char>>::empty());
    let mut i: usize = 0;
    while i < snapshot.warnings.len()
        invariant
            i <= snapshot.warnings@.len(),
            ws == snapshot.warnings.deep_view(),
            warnings_fit(ws),
            parts.deep_view() == head + ws.map_values(|w: Seq<char>| clipped(w, 240)).take(
                i as int,
            ),
        decreases snapshot.warnings@.len() - i,
    {
        assert(ws[i as int] == snapshot.warnings@[i as int]@);
        assert(cuts_cleanly(ws[i as int], 240));
        let clip = clip_text(snapshot.warnings[i].as_str(), 240);
        let ghost before = parts.deep_view();
        parts.push(clip);
        assert(parts.deep_view() =~= before.push(clipped(ws[i as int], 240)));
        assert(ws.map_values(|w: Seq<char>| clipped(w, 240)).take(i + 1) =~= ws.map_values(
            |w: Seq<char>| clipped(w, 240),
        ).take(i as int).push(clipped(ws[i as int], 240)));
        i = i + 1;
    }
    assert(ws.map_values(|w: Seq<char>| clipped(w, 240)).take(ws.len() as int) =~= ws.map_values(
        |w: Seq<char>| clipped(w, 240),
    ));
    assert(parts.deep_view() =~= message_parts_view(*snapshot, opt_ref(chosen)));
    parts
}

/// The message of a session whose app-server has no signed-in account.
pub open spec fn logged_out_message() -> Seq<char> {
    "Codex 已安装，但 app-server 当前没有登录 ChatGPT 账号。请先运行 `codex login`，然后刷新。"@
}

/// The windows of a signed-in session: every rate-limit window found (or
/// the placeholder where there is none), the selected one first.
pub open spec fn session_windows_view(s: CodexSnapshot, selected: Option<Seq<char>>) -> Seq<
    WindowUsageView,
> {
    let found = match s.rate_limits {
        Some(v) => all_windows_view(v),
        None => Seq::empty(),
    };
    selected_first(
        if found.len() > 0 {
            found
        } else {
            placeholder_windows_view()
        },
        selected,
    )
}

/// The snapshot of a Codex session taken at `updated_at`.
///
/// Without a signed-in account it is `LoggedOut` with the placeholder
/// window. Otherwise it names the account and plan, shows the session's
/// windows with the selected one first, reads the credit balance and the
/// pool name from the selected rate-limit snapshot, and is `Normal`
/// exactly when its first window is a real one.
pub open spec fn chatgpt_usage_view(
    s: CodexSnapshot,
    selected: Option<Seq<char>>,
    updated_at: Seq<char>,
) -> UsageView {
    let account = match s.account.field("account"@) {
        Some(a) => a,
        None => Json::Null,
    };
    if account is Null {
        UsageView {
            provider: "chatgpt"@,
            account_label: Some("ChatGPT 账号"@),
            plan_label: None,
            credit_balance: None,
            status: ProviderUsageStatus::LoggedOut,
            windows: placeholder_windows_view(),
            meter_items: Seq::empty(),
            updated_at: Some(updated_at),
            message: Some(logged_out_message()),
            diagnostics: Some(diagnostics_view(s, selected)),
        }
    } else {
        let chosen = match s.rate_limits {
            Some(v) => select_view(v, selected),
            None => None,
        };
        let windows = session_windows_view(s, selected);
        let parts = message_parts_view(s, chosen);
        UsageView {
            provider: "chatgpt"@,
            account_label: Some(account_label_view(account)),
            plan_label: match opt_text(account.field("planType"@)) {
                Some(p) => Some(plan_label_view(p)),
                None => None,
            },
            credit_balance: credit_view(chosen),
            status: if windows.len() > 0 && windows[0].id != "agentic-primary"@ {
                ProviderUsageStatus::Normal
            } else {
                ProviderUsageStatus::Unavailable
            },
            windows,
            meter_items: Seq::empty(),
            updated_at: Some(updated_at),
            message: if parts.len() == 0 {
                None
            } else {
                Some(join_with(parts, " "@))
            },
            diagnostics: Some(diagnostics_view(s, selected)),
        }
    }
}

fn session_windows(snapshot: &CodexSnapshot, selected: Option<&str>) -> (r: Vec<UsageWindow>)
    ensures
        r.deep_view() == session_windows_view(*snapshot, opt_str_view(selected)),
{
    let mut windows = match &snapshot.rate_limits {
        Some(v) => all_rate_limit_windows(v),
        None => Vec::new(),
    };
    if windows.len() == 0 {
        windows = empty_windows();
    }
    sort_selected_window(&mut windows, selected);
    windows
}

fn selected_str(settings: &crate::config::MeterSettings) -> (r: Option<&str>)
    ensures
        opt_str_view(r) == settings.selected_usage_window_id.deep_view(),
{
    match &settings.selected_usage_window_id {
        Some(s) => Some(s.as_str()),
        None => None,
    }
}

/// Whether the session's app-server has a signed-in account: its
/// `account` member is present and not `null`.
pub open spec fn signed_in(s: CodexSnapshot) -> bool {
    match s.account.field("account"@) {
        Some(a) => !(a is Null),
        None => false,
    }
}

/// What `map_snapshot` needs of a session: where it is signed in (the
/// only case in which warnings are shown), every warning can be cut at
/// 240 bytes.
pub open spec fn snapshot_readable(s: CodexSnapshot) -> bool {
    signed_in(s) ==> warnings_fit(s.warnings.deep_view())
}

/// Whether `map_snapshot` can read the session (see `snapshot_readable`).
pub fn snapshot_is_readable(snapshot: &CodexSnapshot) -> (r: bool)
    ensures
        r == snapshot_readable(*snapshot),
{
    let signed = match snapshot.account.get("account") {
        Some(a) => !a.is_null(),
        None => false,
    };
    !signed || warnings_cut_cleanly(snapshot)
}

/// The snapshot of a Codex session taken at `updated_at` (see
/// `chatgpt_usage_view`). Where the session is signed in, every warning
/// must be one that can be cut at 240 bytes (`snapshot_is_readable`).
pub fn map_snapshot_at(
    snapshot: CodexSnapshot,
    settings: &crate::config::MeterSettings,
    updated_at: String,
) -> (r: ProviderUsage)
    requires
        snapshot_readable(snapshot),
    ensures
        r.deep_view() == chatgpt_usage_view(
            snapshot,
            settings.selected_usage_window_id.deep_view(),
            updated_at@,
        ),
{
    let selected = selected_str(settings);
    let ghost sel = settings.selected_usage_window_id.deep_view();
    let items: Vec<crate::usage::MeterDisplayItem> = Vec::new();
    assert(items.deep_view() =~= Seq::<MeterItemView>::empty());
    let diag = diagnostics(&snapshot, crate::text::copy_opt_string(&settings.selected_usage_window_id));
    let account = snapshot.account.get("account");
    let logged_out = match account {
        Some(a) => a.is_null(),
        None => true,
    };
    if logged_out {
        return ProviderUsage {
            provider: owned("chatgpt"),
            account_label: Some(owned("ChatGPT 账号")),
            plan_label: None,
            credit_balance: None,
            status: ProviderUsageStatus::LoggedOut,
            windows: empty_windows(),
            meter_items: items,
            updated_at: Some(updated_at),
            message: Some(
                owned(
                    "Codex 已安装，但 app-server 当前没有登录 ChatGPT 账号。请先运行 `codex login`，然后刷新。",
                ),
            ),
            diagnostics: Some(diag),
        };
    }
    let account = match account {
        Some(a) => a,
        None => &snapshot.account,
    };
    let account_label = account_label(account);
    let plan_label = match account.get("planType") {
        Some(p) => match p.as_str() {
            Some(p) => Some(plan_label(p)),
            None => None,
        },
        None => None,
    };
    let chosen = match &snapshot.rate_limits {
        Some(v) => select_rate_limit_snapshot(v, selected),
        None => None,
    };
    let windows = session_windows(&snapshot, selected);
    let credit = credit_balance(chosen);
    let parts = message_parts(&snapshot, chosen);
    let message = if parts.len() == 0 {
        None
    } else {
        Some(join_strings(&parts, " "))
    };
    let normal = windows.len() > 0 && !str_eq(windows[0].id.as_str(), "agentic-primary");
    let status = if normal {
        ProviderUsageStatus::Normal
    } else {
        ProviderUsageStatus::Unavailable
    };
    let r = ProviderUsage {
        provider: owned("chatgpt"),
        account_label,
        plan_label,
        credit_balance: credit,
        status,
        windows,
        meter_items: items,
        updated_at: Some(updated_at),
        message,
        diagnostics: Some(diag),
    };
    assert(r.windows.deep_view().len() == r.windows@.len());
    r
}

/// The snapshot of a Codex session taken now (see `chatgpt_usage_view`).
pub fn map_snapshot(snapshot: CodexSnapshot, settings: &crate::config::MeterSettings) -> (r:
    ProviderUsage)
    requires
        snapshot_readable(snapshot),
    ensures
        r.deep_view().updated_at is Some,
        r.deep_view() == chatgpt_usage_view(
            snapshot,
            settings.selected_usage_window_id.deep_view(),
            r.deep_view().updated_at->0,
        ),
{
    map_snapshot_at(snapshot, settings, now_rfc3339())
}

/// The snapshot of a session that could not be read: the status given,
/// the error's message, and the placeholder window.
pub open spec fn error_usage_view(
    status: ProviderUsageStatus,
    message: Seq<char>,
    updated_at: Seq<char>,
) -> UsageView {
    UsageView {
        provider: "chatgpt"@,
        account_label: Some("当前 AI 数据源"@),
        plan_label: None,
        credit_balance: None,
        status,
        windows: placeholder_windows_view(),
        meter_items: Seq::empty(),
        updated_at: Some(updated_at),
        message: Some(message),
        diagnostics: None,
    }
}

/// The snapshot of a session that could not be read, taken at
/// `updated_at` (see `error_usage_view`).
pub fn error_snapshot_at(status: ProviderUsageStatus, err: CodexError, updated_at: String) -> (r:
    ProviderUsage)
    ensures
        r.deep_view() == error_usage_view(status, err.message@, updated_at@),
{
    let items: Vec<crate::usage::MeterDisplayItem> = Vec::new();
    assert(items.deep_view() =~= Seq::<MeterItemView>::empty());
    ProviderUsage {
        provider: owned("chatgpt"),
        account_label: Some(owned("当前 AI 数据源")),
        plan_label: None,
        credit_balance: None,
        status,
        windows: empty_windows(),
        meter_items: items,
        updated_at: Some(updated_at),
        message: Some(err.message),
        diagnostics: None,
    }
}

/// The snapshot of a session that could not be read, taken now.
pub fn error_snapshot(status: ProviderUsageStatus, err: CodexError) -> (r: ProviderUsage)
    ensures
        r.deep_view().updated_at is Some,
        r.deep_view() == error_usage_view(status, err.message@, r.deep_view().updated_at->0),
{
    error_snapshot_at(status, err, now_rfc3339())
}

// ------------------------------------------------------------------------
// The access token
// ------------------------------------------------------------------------

/// The access token of a Codex `auth.json`: `tokens.access_token`, where it
/// is a string that is not blank.
pub open spec fn token_view(auth: Json) -> Option<Seq<char>> {
    match opt_text(member_of(auth.field("tokens"@), "access_token"@)) {
        Some(t) => if crate::text::trim(t).len() > 0 {
            Some(t)
        } else {
            None
        },
        None => None,
    }
}

/// The access token of a Codex `auth.json` (see `token_view`).
pub fn access_token_in(auth: &Json) -> (r: Option<String>)
    ensures
        r.deep_view() == token_view(*auth),
{
    match member_of_exec(auth.get("tokens"), "access_token") {
        Some(t) => match t.as_str() {
            Some(s) => {
                if crate::text::trim_chars(&chars_of(s)).len() > 0 {
                    Some(owned(s))
                } else {
                    None
                }
            },
            None => None,
        },
        None => None,
    }
}

/// The files, in the Codex directory, in which the access token is looked
/// for, in order.
pub open spec fn auth_file_names_view() -> Seq<Seq<char>> {
    seq!["auth.json"@, "auth - 副本.json"@]
}

/// The files in which the access token is looked for, in order.
pub fn auth_file_names() -> (r: Vec<String>)
    ensures
        r.deep_view() == auth_file_names_view(),
{
    let mut r: Vec<String> = Vec::new();
    r.push(owned("auth.json"));
    r.push(owned("auth - 副本.json"));
    assert(r.deep_view() =~= auth_file_names_view());
    r
}

/// What reading one `auth.json` gave.
#[derive(Debug)]
pub enum AuthFileRead {
    /// It could not be read or parsed; the note says why.
    Unreadable(String),
    /// Its JSON.
    Parsed(Json),
}

/// A note put in front of the notes of a failed search.
pub open spec fn prepend_note(note: Seq<char>, r: Result<Seq<char>, Seq<Seq<char>>>) -> Result<
    Seq<char>,
    Seq<Seq<char>>,
> {
    match r {
        Ok(t) => Ok(t),
        Err(es) => Err(seq![note] + es),
    }
}

/// The search for the access token through the files read, in order: the
/// first token found, or the notes on every file (why it was unreadable,
/// or that it holds no token).
pub open spec fn token_search(paths: Seq<Seq<char>>, reads: Seq<AuthFileRead>) -> Result<
    Seq<char>,
    Seq<Seq<char>>,
>
    decreases reads.len(),
{
    if reads.len() == 0 {
        Err(Seq::empty())
    } else {
        let rest = token_search(paths.drop_first(), reads.drop_first());
        match reads[0] {
            AuthFileRead::Unreadable(note) => prepend_note(note@, rest),
            AuthFileRead::Parsed(j) => match token_view(j) {
                Some(t) => Ok(t),
                None => prepend_note(paths[0] + ": tokens.access_token is empty"@, rest),
            },
        }
    }
}

/// Notes gathered so far put in front of those of the rest of a search.
pub open spec fn after_notes(notes: Seq<Seq<char>>, r: Result<Seq<char>, Seq<Seq<char>>>) -> Result<
    Seq<char>,
    Seq<Seq<char>>,
> {
    match r {
        Ok(t) => Ok(t),
        Err(es) => Err(notes + es),
    }
}

/// The message of a search that found no access token.
pub open spec fn token_missing_view(notes: Seq<Seq<char>>) -> Seq<char> {
    "Unable to find ChatGPT access token. "@ + join_with(notes, "; "@)
}

/// The access token found in the files read (`reads[i]` is what reading
/// `paths[i]` gave), or the message listing why each file gave none.
pub fn pick_access_token(paths: &Vec<String>, reads: &Vec<AuthFileRead>) -> (r: Result<
    String,
    String,
>)
    requires
        paths@.len() == reads@.len(),
    ensures
        match token_search(paths.deep_view(), reads@) {
            Ok(t) => r matches Ok(x) && x@ == t,
            Err(notes) => r matches Err(m) && m@ == token_missing_view(notes),
        },
{
    let ghost ps = paths.deep_view();
    let mut notes: Vec<String> = Vec::new();
    let mut i: usize = 0;
    assert(ps.skip(0) =~= ps);
    assert(reads@.skip(0) =~= reads@);
    assert(notes.deep_view() + Seq::<Seq<char>>::empty() =~= notes.deep_view());
    while i < reads.len()
        invariant
            i <= reads@.len(),
            paths@.len() == reads@.len(),
            ps == paths.deep_view(),
            token_search(ps, reads@) == after_notes(
                notes.deep_view(),
                token_search(ps.skip(i as int), reads@.skip(i as int)),
            ),
        decreases reads@.len() - i,
    {
        let ghost rest = token_search(ps.skip(i + 1), reads@.skip(i + 1));
        assert(ps.skip(i as int).drop_first() =~= ps.skip(i + 1));
        assert(reads@.skip(i as int).drop_first() =~= reads@.skip(i + 1));
        assert(reads@.skip(i as int)[0] == reads@[i as int]);
        assert(ps.skip(i as int)[0] == paths@[i as int]@);
        let ghost before = notes.deep_view();
        match &reads[i] {
            AuthFileRead::Unreadable(note) => {
                notes.push(note.clone());
                assert(notes.deep_view() =~= before.push(note@));
                proof {
                    match rest {
                        Err(x) => {
                            assert(before + (seq![note@] + x) =~= before.push(note@) + x);
                        },
                        Ok(_) => {},
                    }
                }
            },
            AuthFileRead::Parsed(j) => {
                if let Some(token) = access_token_in(j) {
                    return Ok(token);
                }
                let note = concat(paths[i].as_str(), ": tokens.access_token is empty");
                notes.push(note);
                assert(notes.deep_view() =~= before.push(
                    paths@[i as int]@ + ": tokens.access_token is empty"@,
                ));
                proof {
                    let n = paths@[i as int]@ + ": tokens.access_token is empty"@;
                    match rest {
                        Err(x) => {
                            assert(before + (seq![n] + x) =~= before.push(n) + x);
                        },
                        Ok(_) => {},
                    }
                }
            },
        }
        i = i + 1;
    }
    assert(reads@.skip(i as int) =~= Seq::<AuthFileRead>::empty());
    assert(notes.deep_view() + Seq::<Seq<char>>::empty() =~= notes.deep_view());
    let joined = join_strings(&notes, "; ");
    Err(concat("Unable to find ChatGPT access token. ", joined.as_str()))
}


/// The windows of a rate-limit snapshot are its primary window, labelled
/// 主用量窗口, and its secondary window, labelled 次用量窗口: every window
/// carries the key it was read from, its id is `codex-<bucket>-<key>`, and
/// the two labels differ.
pub proof fn law_rate_limit_window_labels(snapshot: Json)
    ensures
        forall|k: int|
            0 <= k < rate_limit_windows_view(snapshot).len() ==> {
                let w = #[trigger] rate_limit_windows_view(snapshot)[k];
                &&& (w.window_key == Some("primary"@) && w.label == "主用量窗口"@) || (
                w.window_key == Some("secondary"@) && w.label == "次用量窗口"@)
                &&& w.bucket_id is Some
                &&& w.id == "codex-"@ + w.bucket_id->0 + "-"@ + w.window_key->0
            },
        "主用量窗口"@ != "次用量窗口"@,
        "primary"@ != "secondary"@,
{
    reveal_strlit("主用量窗口");
    reveal_strlit("次用量窗口");
    reveal_strlit("primary");
    reveal_strlit("secondary");
    assert("主用量窗口"@[0] != "次用量窗口"@[0]);
    assert("primary"@[0] != "secondary"@[0]);
}

} // verus!
