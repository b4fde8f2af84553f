//! Which data source answers a query, how a configured HTTP source is
//! queried, and how a refresh falls back on the last successful reading.

use vstd::prelude::*;
use crate::config::{
    DataSourceKind, DataSourceSettings, HttpArrayWindowSettings, HttpWindowSettings,
    MeterSettings, SourceView,
};
use crate::http_source::{
    ArrayWindowRule, AuthMode, ExtractionRule, HttpSourceConfig, ValueKind, WindowRule,
};
use crate::text::{concat, copy_opt_string, copy_strings, owned, str_eq};
use crate::usage::{
    MeterItemView, ProviderUsage, ProviderUsageStatus, UsageView, UsageWindow, WindowUsageView,
};

verus! {

// ------------------------------------------------------------------------
// HTTP query plans
// ------------------------------------------------------------------------

/// Whether `c` is the query plan of the configured source `s`: its id,
/// label, URL, key, headers, timeout, threshold, value paths, window rules
/// and script as configured; no fallback endpoints; enabled; the key sent
/// raw where the auth mode is `raw` and as a bearer token otherwise; a
/// percentage where the value format is `percent` and money otherwise; one
/// window `<id>-value` labelled `HTTP value`.
pub open spec fn http_config_agrees(c: HttpSourceConfig, s: SourceView) -> bool {
    &&& c.provider_id@ == s.id
    &&& c.label@ == s.label
    &&& c.base_url@ == s.base_url
    &&& c.endpoint@ == s.endpoint
    &&& c.endpoint_fallbacks@.len() == 0
    &&& c.enabled
    &&& c.api_key@ == s.api_key
    &&& c.auth == (if s.auth_mode == "raw"@ {
        AuthMode::Raw
    } else {
        AuthMode::Bearer
    })
    &&& c.headers.deep_view() == s.headers
    &&& c.timeout_seconds == s.timeout_seconds
    &&& c.window_id@ == s.id + "-value"@
    &&& c.window_key@ == "value"@
    &&& c.limit_label@ == "HTTP value"@
    &&& c.empty_limit_label@ == "HTTP value"@
    &&& c.value_kind == (if s.parser.value_format == "percent"@ {
        ValueKind::Percent
    } else {
        ValueKind::Money
    })
    &&& c.low_threshold == s.low_balance_threshold
    &&& c.extraction_rules.deep_view() == s.parser.value_paths
    &&& c.currency_paths.deep_view() == s.parser.currency_paths
    &&& c.currency_default.deep_view() == s.parser.currency_default
    &&& c.reset_paths.deep_view() == s.parser.reset_paths
    &&& c.transform_script@ == s.transform_script
    &&& c.window_rules.deep_view() == s.parser.windows
    &&& c.array_window_rules.deep_view() == s.parser.array_windows
}

fn window_rule_of(w: &HttpWindowSettings) -> (r: WindowRule)
    ensures
        r.deep_view() == w.deep_view(),
{
    WindowRule {
        id: w.id.clone(),
        label: w.label.clone(),
        root_path: w.root_path.clone(),
        limit_path: w.limit_path.clone(),
        remaining_path: w.remaining_path.clone(),
        used_path: copy_opt_string(&w.used_path),
        reset_path: copy_opt_string(&w.reset_path),
        limit_label: copy_opt_string(&w.limit_label),
        window_key: copy_opt_string(&w.window_key),
    }
}

fn array_rule_of(w: &HttpArrayWindowSettings) -> (r: ArrayWindowRule)
    ensures
        r.deep_view() == w.deep_view(),
{
    ArrayWindowRule {
        id_prefix: w.id_prefix.clone(),
        label: w.label.clone(),
        array_path: w.array_path.clone(),
        item_root_path: w.item_root_path.clone(),
        limit_path: w.limit_path.clone(),
        remaining_path: w.remaining_path.clone(),
        used_path: copy_opt_string(&w.used_path),
        reset_path: copy_opt_string(&w.reset_path),
        limit_label: copy_opt_string(&w.limit_label),
        window_key_prefix: copy_opt_string(&w.window_key_prefix),
    }
}

/// The query plan of a configured HTTP source (see `http_config_agrees`).
pub fn http_config_for_source(source: &DataSourceSettings) -> (r: HttpSourceConfig)
    ensures
        http_config_agrees(r, source.deep_view()),
{
    let value_kind = if str_eq(source.parser.value_format.as_str(), "percent") {
        ValueKind::Percent
    } else {
        ValueKind::Money
    };
    let auth = if str_eq(source.auth_mode.as_str(), "raw") {
        AuthMode::Raw
    } else {
        AuthMode::Bearer
    };
    let mut headers: Vec<(String, String)> = Vec::new();
    let mut i: usize = 0;
    while i < source.headers.len()
        invariant
            i <= source.headers@.len(),
            headers.deep_view() == source.headers.deep_view().take(i as int),
        decreases source.headers@.len() - i,
    {
        let h = &source.headers[i];
        let ghost prev = headers.deep_view();
        headers.push((h.name.clone(), h.value.clone()));
        assert(headers.deep_view() =~= prev.push(source.headers.deep_view()[i as int]));
        assert(headers.deep_view() =~= source.headers.deep_view().take(i + 1));
        i = i + 1;
    }
    assert(source.headers.deep_view().take(source.headers@.len() as int) =~= source.headers.deep_view());
    let mut rules: Vec<ExtractionRule> = Vec::new();
    let mut i: usize = 0;
    while i < source.parser.value_paths.len()
        invariant
            i <= source.parser.value_paths@.len(),
            rules.deep_view() == source.parser.value_paths.deep_view().take(i as int),
        decreases source.parser.value_paths@.len() - i,
    {
        let p = &source.parser.value_paths[i];
        let ghost prev = rules.deep_view();
        rules.push(ExtractionRule { path: p.path.clone(), divisor: p.divisor });
        assert(rules.deep_view() =~= prev.push(source.parser.value_paths.deep_view()[i as int]));
        assert(rules.deep_view() =~= source.parser.value_paths.deep_view().take(i + 1));
        i = i + 1;
    }
    assert(source.parser.value_paths.deep_view().take(source.parser.value_paths@.len() as int) =~= source.parser.value_paths.deep_view());
    let mut windows: Vec<WindowRule> = Vec::new();
    let mut i: usize = 0;
    while i < source.parser.windows.len()
        invariant
            i <= source.parser.windows@.len(),
            windows.deep_view() == source.parser.windows.deep_view().take(i as int),
        decreases source.parser.windows@.len() - i,
    {
        let ghost prev = windows.deep_view();
        windows.push(window_rule_of(&source.parser.windows[i]));
        assert(windows.deep_view() =~= prev.push(source.parser.windows.deep_view()[i as int]));
        assert(windows.deep_view() =~= source.parser.windows.deep_view().take(i + 1));
        i = i + 1;
    }
    assert(source.parser.windows.deep_view().take(source.parser.windows@.len() as int) =~= source.parser.windows.deep_view());
    let mut arrays: Vec<ArrayWindowRule> = Vec::new();
    let mut i: usize = 0;
    while i < source.parser.array_windows.len()
        invariant
            i <= source.parser.array_windows@.len(),
            arrays.deep_view() == source.parser.array_windows.deep_view().take(i as int),
        decreases source.parser.array_windows@.len() - i,
    {
        let ghost prev = arrays.deep_view();
        arrays.push(array_rule_of(&source.parser.array_windows[i]));
        assert(arrays.deep_view() =~= prev.push(source.parser.array_windows.deep_view()[i as int]));
        assert(arrays.deep_view() =~= source.parser.array_windows.deep_view().take(i + 1));
        i = i + 1;
    }
    assert(source.parser.array_windows.deep_view().take(source.parser.array_windows@.len() as int) =~= source.parser.array_windows.deep_view());
    let fallbacks: Vec<String> = Vec::new();
    HttpSourceConfig {
        provider_id: source.id.clone(),
        label: source.label.clone(),
        base_url: source.base_url.clone(),
        endpoint: source.endpoint.clone(),
        endpoint_fallbacks: fallbacks,
        enabled: true,
        api_key: source.api_key.clone(),
        auth,
        headers,
        timeout_seconds: source.timeout_seconds,
        window_id: concat(source.id.as_str(), "-value"),
        window_key: owned("value"),
        limit_label: owned("HTTP value"),
        empty_limit_label: owned("HTTP value"),
        value_kind,
        low_threshold: source.low_balance_threshold,
        extraction_rules: rules,
        currency_paths: copy_strings(&source.parser.currency_paths),
        currency_default: copy_opt_string(&source.parser.currency_default),
        reset_paths: copy_strings(&source.parser.reset_paths),
        transform_script: source.transform_script.clone(),
        window_rules: windows,
        array_window_rules: arrays,
    }
}

// ------------------------------------------------------------------------
// Which source answers
// ------------------------------------------------------------------------

/// The first configured source with the given id.
pub open spec fn first_source(sources: Seq<SourceView>, id: Seq<char>) -> Option<SourceView>
    decreases sources.len(),
{
    if sources.len() == 0 {
        None
    } else if sources[0].id == id {
        Some(sources[0])
    } else {
        first_source(sources.drop_first(), id)
    }
}

/// How a source is queried.
#[derive(Debug)]
pub enum SourcePlan {
    /// No configured source has the id.
    Missing,
    /// Through the Codex connector.
    Chatgpt,
    /// Over HTTP, with this plan.
    Http(HttpSourceConfig),
}

/// How the source with the given id is queried: not at all when no source
/// has that id; through the Codex connector for a ChatGPT source; over
/// HTTP with the source's plan for a Kimi or HTTP source.
pub fn plan_for_source(settings: &MeterSettings, source_id: &str) -> (r: SourcePlan)
    ensures
        match first_source(settings.sources.deep_view(), source_id@) {
            None => r is Missing,
            Some(s) => if s.kind == DataSourceKind::Chatgpt {
                r is Chatgpt
            } else {
                r matches SourcePlan::Http(c) && http_config_agrees(c, s)
            },
        },
{
    let ghost all = settings.sources.deep_view();
    let mut i: usize = 0;
    assert(all.skip(0) =~= all);
    while i < settings.sources.len()
        invariant
            i <= settings.sources@.len(),
            all == settings.sources.deep_view(),
            first_source(all, source_id@) == first_source(all.skip(i as int), source_id@),
        decreases settings.sources@.len() - i,
    {
        let s = &settings.sources[i];
        assert(all.skip(i as int).drop_first() =~= all.skip(i as int + 1));
        assert(all.skip(i as int)[0] == s.deep_view());
        if str_eq(s.id.as_str(), source_id) {
            return match s.kind {
                DataSourceKind::Chatgpt => SourcePlan::Chatgpt,
                _ => SourcePlan::Http(http_config_for_source(s)),
            };
        }
        i = i + 1;
    }
    assert(all.skip(i as int) =~= Seq::<SourceView>::empty());
    SourcePlan::Missing
}

/// The snapshot of a source id that no configured source has.
pub open spec fn unavailable_source_view(id: Seq<char>) -> UsageView {
    UsageView {
        provider: id,
        account_label: Some(id),
        plan_label: None,
        credit_balance: None,
        status: ProviderUsageStatus::Unavailable,
        windows: seq![
            WindowUsageView {
                id: id + "-unavailable"@,
                label: id,
                used_percent: 0,
                remaining_percent: 0,
                value_label: None,
                resets_at: None,
                limit_label: Some("data source not found"@),
                bucket_id: Some(id),
                window_key: Some("unavailable"@),
            },
        ],
        meter_items: Seq::empty(),
        updated_at: None,
        message: Some("Data source not found in settings."@),
        diagnostics: None,
    }
}

/// The snapshot of a source id that no configured source has (see
/// `unavailable_source_view`).
pub fn unavailable_source_snapshot(source_id: &str) -> (r: ProviderUsage)
    ensures
        r.deep_view() == unavailable_source_view(source_id@),
{
    let mut windows: Vec<UsageWindow> = Vec::new();
    windows.push(
        UsageWindow {
            id: concat(source_id, "-unavailable"),
            label: owned(source_id),
            used_percent: 0,
            remaining_percent: 0,
            value_label: None,
            resets_at: None,
            limit_label: Some(owned("data source not found")),
            bucket_id: Some(owned(source_id)),
            window_key: Some(owned("unavailable")),
        },
    );
    let items: Vec<crate::usage::MeterDisplayItem> = Vec::new();
    assert(items.deep_view() =~= Seq::<MeterItemView>::empty());
    let r = ProviderUsage {
        provider: owned(source_id),
        account_label: Some(owned(source_id)),
        plan_label: None,
        credit_balance: None,
        status: ProviderUsageStatus::Unavailable,
        windows,
        meter_items: items,
        updated_at: None,
        message: Some(owned("Data source not found in settings.")),
        diagnostics: None,
    };
    assert(r.windows.deep_view() =~= unavailable_source_view(source_id@).windows);
    r
}

/// The sources shown on the taskbar meter: those listed for it, or the
/// selected source where none is listed.
pub open spec fn meter_sources_view(s: MeterSettings) -> Seq<Seq<char>> {
    if s.taskbar_source_ids@.len() == 0 {
        seq![s.selected_meter_source@]
    } else {
        s.taskbar_source_ids.deep_view()
    }
}

/// The sources shown on the taskbar meter, each with whether it is the
/// selected source (whose snapshot the refresh has just taken).
pub fn meter_sources(settings: &MeterSettings) -> (r: Vec<(String, bool)>)
    ensures
        r@.len() == meter_sources_view(*settings).len(),
        forall|i: int|
            0 <= i < r@.len() ==> (#[trigger] r@[i]).0@ == meter_sources_view(*settings)[i]
                && r@[i].1 == (r@[i].0@ == settings.selected_meter_source@),
{
    let ids = if settings.taskbar_source_ids.len() == 0 {
        let mut v: Vec<String> = Vec::new();
        v.push(settings.selected_meter_source.clone());
        assert(v.deep_view() =~= meter_sources_view(*settings));
        v
    } else {
        copy_strings(&settings.taskbar_source_ids)
    };
    let mut r: Vec<(String, bool)> = Vec::new();
    let mut i: usize = 0;
    while i < ids.len()
        invariant
            i <= ids@.len(),
            ids.deep_view() == meter_sources_view(*settings),
            r@.len() == i,
            forall|k: int|
                0 <= k < i ==> (#[trigger] r@[k]).0@ == ids.deep_view()[k] && r@[k].1 == (
                r@[k].0@ == settings.selected_meter_source@),
        decreases ids@.len() - i,
    {
        let active = str_eq(ids[i].as_str(), settings.selected_meter_source.as_str());
        r.push((ids[i].clone(), active));
        assert(ids.deep_view()[i as int] == ids@[i as int]@);
        i = i + 1;
    }
    r
}

// ------------------------------------------------------------------------
// Falling back on the last success
// ------------------------------------------------------------------------

/// The note added to a snapshot that shows the last successful reading.
pub open spec fn carried_note() -> Seq<char> {
    "正在沿用上次成功获取的用量数据。"@
}

/// What a refresh shows: a failed snapshot of the same provider as the
/// last success shows that success's windows, takes its account, plan and
/// credit where it has none, and says so in its message; any other
/// snapshot is shown as it is.
pub open spec fn carried_view(snapshot: UsageView, last_success: Option<UsageView>) -> UsageView {
    match last_success {
        Some(ok) if snapshot.status != ProviderUsageStatus::Normal && ok.provider
            == snapshot.provider => UsageView {
            provider: snapshot.provider,
            account_label: if snapshot.account_label is None {
                ok.account_label
            } else {
                snapshot.account_label
            },
            plan_label: if snapshot.plan_label is None {
                ok.plan_label
            } else {
                snapshot.plan_label
            },
            credit_balance: if snapshot.credit_balance is None {
                ok.credit_balance
            } else {
                snapshot.credit_balance
            },
            status: snapshot.status,
            windows: ok.windows,
            meter_items: snapshot.meter_items,
            updated_at: snapshot.updated_at,
            message: Some(
                match snapshot.message {
                    Some(m) => m + " "@ + carried_note(),
                    None => carried_note(),
                },
            ),
            diagnostics: snapshot.diagnostics,
        },
        _ => snapshot,
    }
}

/// The last success after a refresh: the new snapshot where it is
/// `Normal`, the previous one otherwise.
pub open spec fn next_success_view(snapshot: UsageView, last_success: Option<UsageView>) -> Option<
    UsageView,
> {
    if snapshot.status == ProviderUsageStatus::Normal {
        Some(snapshot)
    } else {
        last_success
    }
}

/// Settles a refresh: returns what is shown (see `carried_view`) and the
/// last success to keep (see `next_success_view`).
pub fn settle_refresh(snapshot: ProviderUsage, last_success: Option<ProviderUsage>) -> (r: (
    ProviderUsage,
    Option<ProviderUsage>,
))
    ensures
        r.0.deep_view() == carried_view(snapshot.deep_view(), last_success.deep_view()),
        r.1.deep_view() == next_success_view(snapshot.deep_view(), last_success.deep_view()),
{
    if snapshot.status == ProviderUsageStatus::Normal {
        let kept = snapshot.copy();
        return (snapshot, Some(kept));
    }
    let ok = match last_success {
        Some(ok) => ok,
        None => {
            return (snapshot, None);
        },
    };
    if !str_eq(ok.provider.as_str(), snapshot.provider.as_str()) {
        return (snapshot, Some(ok));
    }
    let ghost before = snapshot.deep_view();
    let kept = ok.copy();
    let mut shown = snapshot;
    shown.windows = ok.windows;
    if shown.account_label.is_none() {
        shown.account_label = ok.account_label;
    }
    if shown.plan_label.is_none() {
        shown.plan_label = ok.plan_label;
    }
    if shown.credit_balance.is_none() {
        shown.credit_balance = ok.credit_balance;
    }
    let message = match shown.message {
        Some(m) => concat(concat(m.as_str(), " ").as_str(), "正在沿用上次成功获取的用量数据。"),
        None => owned("正在沿用上次成功获取的用量数据。"),
    };
    shown.message = Some(message);
    assert(shown.deep_view() =~= carried_view(before, Some(kept.deep_view())));
    (shown, Some(kept))
}

/// After a successful reading, a failed reading of the same provider is
/// shown with the windows of the successful one.
pub proof fn law_failure_shows_last_success(
    success: UsageView,
    failure: UsageView,
    earlier: Option<UsageView>,
)
    requires
        success.status == ProviderUsageStatus::Normal,
        failure.status != ProviderUsageStatus::Normal,
        failure.provider == success.provider,
    ensures
        carried_view(failure, next_success_view(success, earlier)).windows == success.windows,
        carried_view(failure, next_success_view(success, earlier)).status == failure.status,
        next_success_view(failure, next_success_view(success, earlier)) == Some(success),
{
}

/// A successful reading is shown as it is and becomes the last success.
pub proof fn law_success_is_shown_and_kept(snapshot: UsageView, last_success: Option<UsageView>)
    requires
        snapshot.status == ProviderUsageStatus::Normal,
    ensures
        carried_view(snapshot, last_success) == snapshot,
        next_success_view(snapshot, last_success) == Some(snapshot),
{
}

/// The last success kept across refreshes is always a `Normal` snapshot:
/// settling a refresh keeps that so, whatever the new snapshot is.
pub proof fn law_kept_success_is_normal(snapshot: UsageView, last_success: Option<UsageView>)
    requires
        last_success matches Some(ok) ==> ok.status == ProviderUsageStatus::Normal,
    ensures
        next_success_view(snapshot, last_success) matches Some(ok) ==> ok.status
            == ProviderUsageStatus::Normal,
{
}


/// A failed reading of the provider of the last success takes the account,
/// plan and credit balance of the last success where it has none of its
/// own, and keeps its own where it has them.
pub proof fn law_failure_fills_missing_details(failure: UsageView, success: UsageView)
    requires
        failure.status != ProviderUsageStatus::Normal,
        failure.provider == success.provider,
    ensures
        ({
            let shown = carried_view(failure, Some(success));
            &&& failure.credit_balance is None ==> shown.credit_balance == success.credit_balance
            &&& failure.credit_balance is Some ==> shown.credit_balance == failure.credit_balance
            &&& failure.account_label is None ==> shown.account_label == success.account_label
            &&& failure.account_label is Some ==> shown.account_label == failure.account_label
            &&& failure.plan_label is None ==> shown.plan_label == success.plan_label
            &&& failure.plan_label is Some ==> shown.plan_label == failure.plan_label
            &&& shown.provider == failure.provider
            &&& shown.status == failure.status
        }),
{
}

} // verus!
