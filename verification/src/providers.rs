//! The query plans of the legacy AI-MEMBER and DeepSeek settings, which
//! predate configurable data sources.

use vstd::prelude::*;
use crate::config::{
    amount_path_list, amount_paths, hundred, one, quota_path_list, quota_paths, with_divisor,
    AiMemberSettings, AiMemberView, DeepSeekSettings, DeepSeekView,
};
use crate::http_source::{
    join_url, join_url_view, ArrayWindowRule, AuthMode, ExtractionRule, HttpSourceConfig,
    ValueKind, WindowRule,
};
use crate::json::FloatBits;
use crate::text::owned;

verus! {

/// The endpoints an AI-MEMBER query falls back on.
pub open spec fn ai_member_fallbacks() -> Seq<Seq<char>> {
    seq!["/api/usage/token/"@, "/api/usage/token"@, "/v1/balance"@, "/api/v1/balance"@]
}

/// Paths at which some AI-MEMBER replies nest the balance.
pub open spec fn nested_paths() -> Seq<Seq<char>> {
    seq!["result.balance"@, "result.remaining"@]
}

/// The value paths of an AI-MEMBER query: dollar amounts as they are,
/// quotas divided by `d`, nested balances as they are, then cents.
pub open spec fn legacy_ai_member_rules(d: FloatBits) -> Seq<(Seq<char>, FloatBits)> {
    with_divisor(amount_paths(), one()) + with_divisor(quota_paths(), d) + with_divisor(
        nested_paths(),
        one(),
    ) + seq![("cents"@, hundred())]
}

/// Whether `c` is the query plan of the legacy AI-MEMBER settings `s`.
pub open spec fn ai_member_plan_agrees(c: HttpSourceConfig, s: AiMemberView) -> bool {
    &&& c.provider_id@ == "ai_member"@
    &&& c.label@ == s.label
    &&& c.base_url@ == s.base_url
    &&& c.endpoint@ == s.balance_endpoint
    &&& c.endpoint_fallbacks.deep_view() == ai_member_fallbacks()
    &&& c.enabled == s.enabled
    &&& c.api_key@ == s.api_key
    &&& c.auth == AuthMode::Bearer
    &&& c.headers.deep_view() == seq![
        ("accept-language"@, "zh"@),
        ("referer"@, join_url_view(s.base_url, "/keys"@)),
        ("x-user-ui-request"@, "1"@),
    ]
    &&& c.timeout_seconds == 8
    &&& c.window_id@ == "ai-member-balance"@
    &&& c.window_key@ == "balance"@
    &&& c.limit_label@ == "AI-MEMBER balance endpoint"@
    &&& c.empty_limit_label@ == "AI-MEMBER balance"@
    &&& c.value_kind == ValueKind::Money
    &&& c.low_threshold == s.low_balance_threshold
    &&& c.extraction_rules.deep_view() == legacy_ai_member_rules(s.balance_divisor)
    &&& c.currency_paths@.len() == 0
    &&& c.currency_default.deep_view() == Some("USD"@)
    &&& c.reset_paths@.len() == 0
    &&& c.transform_script@.len() == 0
    &&& c.window_rules@.len() == 0
    &&& c.array_window_rules@.len() == 0
}

fn push_rules(out: &mut Vec<ExtractionRule>, paths: &Vec<String>, d: FloatBits)
    ensures
        final(out).deep_view() == old(out).deep_view() + with_divisor(paths.deep_view(), d),
{
    let ghost start = old(out).deep_view();
    let mut i: usize = 0;
    while i < paths.len()
        invariant
            i <= paths@.len(),
            out.deep_view() == start + with_divisor(paths.deep_view().take(i as int), d),
        decreases paths@.len() - i,
    {
        let ghost prev = out.deep_view();
        out.push(ExtractionRule { path: paths[i].clone(), divisor: d });
        assert(out.deep_view() =~= prev.push((paths@[i as int]@, d)));
        assert(with_divisor(paths.deep_view().take(i as int + 1), d) =~= with_divisor(
            paths.deep_view().take(i as int),
            d,
        ).push((paths@[i as int]@, d)));
        assert(out.deep_view() =~= start + with_divisor(paths.deep_view().take(i as int + 1), d));
        i = i + 1;
    }
    assert(paths.deep_view().take(paths@.len() as int) =~= paths.deep_view());
}

/// The query plan of the legacy AI-MEMBER settings (see
/// `ai_member_plan_agrees`).
pub fn ai_member_source_config(settings: &AiMemberSettings) -> (r: HttpSourceConfig)
    ensures
        ai_member_plan_agrees(r, settings.deep_view()),
{
    let one_bits = FloatBits { bits: 0x3ff0000000000000 };
    let mut rules: Vec<ExtractionRule> = Vec::new();
    assert(rules.deep_view() =~= Seq::<(Seq<char>, FloatBits)>::empty());
    push_rules(&mut rules, &amount_path_list(), one_bits);
    push_rules(&mut rules, &quota_path_list(), settings.balance_divisor);
    let mut nested: Vec<String> = Vec::new();
    nested.push(owned("result.balance"));
    nested.push(owned("result.remaining"));
    assert(nested.deep_view() =~= nested_paths());
    push_rules(&mut rules, &nested, one_bits);
    let ghost before = rules.deep_view();
    rules.push(ExtractionRule { path: owned("cents"), divisor: FloatBits { bits: 0x4059000000000000 } });
    assert(rules.deep_view() =~= before.push(("cents"@, hundred())));
    assert(rules.deep_view() =~= legacy_ai_member_rules(settings.balance_divisor));
    let mut fallbacks: Vec<String> = Vec::new();
    fallbacks.push(owned("/api/usage/token/"));
    fallbacks.push(owned("/api/usage/token"));
    fallbacks.push(owned("/v1/balance"));
    fallbacks.push(owned("/api/v1/balance"));
    assert(fallbacks.deep_view() =~= ai_member_fallbacks());
    let mut headers: Vec<(String, String)> = Vec::new();
    headers.push((owned("accept-language"), owned("zh")));
    headers.push((owned("referer"), join_url(settings.base_url.as_str(), "/keys")));
    headers.push((owned("x-user-ui-request"), owned("1")));
    assert(headers.deep_view() =~= seq![
        ("accept-language"@, "zh"@),
        ("referer"@, join_url_view(settings.base_url@, "/keys"@)),
        ("x-user-ui-request"@, "1"@),
    ]);
    let currency_paths: Vec<String> = Vec::new();
    let reset_paths: Vec<String> = Vec::new();
    let window_rules: Vec<WindowRule> = Vec::new();
    let array_window_rules: Vec<ArrayWindowRule> = Vec::new();
    HttpSourceConfig {
        provider_id: owned("ai_member"),
        label: settings.label.clone(),
        base_url: settings.base_url.clone(),
        endpoint: settings.balance_endpoint.clone(),
        endpoint_fallbacks: fallbacks,
        enabled: settings.enabled,
        api_key: settings.api_key.clone(),
        auth: AuthMode::Bearer,
        headers,
        timeout_seconds: 8,
        window_id: owned("ai-member-balance"),
        window_key: owned("balance"),
        limit_label: owned("AI-MEMBER balance endpoint"),
        empty_limit_label: owned("AI-MEMBER balance"),
        value_kind: ValueKind::Money,
        low_threshold: settings.low_balance_threshold,
        extraction_rules: rules,
        currency_paths,
        currency_default: Some(owned("USD")),
        reset_paths,
        transform_script: String::new(),
        window_rules,
        array_window_rules,
    }
}

/// Whether `c` is the query plan of the legacy DeepSeek settings `s`: the
/// CNY balance (else the first balance) and its currency.
pub open spec fn deepseek_plan_agrees(c: HttpSourceConfig, s: DeepSeekView) -> bool {
    &&& c.provider_id@ == "deepseek"@
    &&& c.label@ == s.label
    &&& c.base_url@ == s.base_url
    &&& c.endpoint@ == s.balance_endpoint
    &&& c.endpoint_fallbacks@.len() == 0
    &&& c.enabled == s.enabled
    &&& c.api_key@ == s.api_key
    &&& c.auth == AuthMode::Bearer
    &&& c.headers@.len() == 0
    &&& c.timeout_seconds == 8
    &&& c.window_id@ == "deepseek-balance"@
    &&& c.window_key@ == "balance"@
    &&& c.limit_label@ == "DeepSeek API balance"@
    &&& c.empty_limit_label@ == "DeepSeek API balance"@
    &&& c.value_kind == ValueKind::Money
    &&& c.low_threshold == s.low_balance_threshold
    &&& c.extraction_rules.deep_view() == seq![
        ("balance_infos[currency=CNY].total_balance"@, one()),
        ("balance_infos[0].total_balance"@, one()),
    ]
    &&& c.currency_paths.deep_view() == seq![
        "balance_infos[currency=CNY].currency"@,
        "balance_infos[0].currency"@,
    ]
    &&& c.currency_default.deep_view() == Some("CNY"@)
    &&& c.reset_paths@.len() == 0
    &&& c.transform_script@.len() == 0
    &&& c.window_rules@.len() == 0
    &&& c.array_window_rules@.len() == 0
}

/// The query plan of the legacy DeepSeek settings (see
/// `deepseek_plan_agrees`).
pub fn deepseek_source_config(settings: &DeepSeekSettings) -> (r: HttpSourceConfig)
    ensures
        deepseek_plan_agrees(r, settings.deep_view()),
{
    let one_bits = FloatBits { bits: 0x3ff0000000000000 };
    let mut rules: Vec<ExtractionRule> = Vec::new();
    rules.push(
        ExtractionRule { path: owned("balance_infos[currency=CNY].total_balance"), divisor: one_bits },
    );
    rules.push(ExtractionRule { path: owned("balance_infos[0].total_balance"), divisor: one_bits });
    assert(rules.deep_view() =~= seq![
        ("balance_infos[currency=CNY].total_balance"@, one()),
        ("balance_infos[0].total_balance"@, one()),
    ]);
    let mut currency_paths: Vec<String> = Vec::new();
    currency_paths.push(owned("balance_infos[currency=CNY].currency"));
    currency_paths.push(owned("balance_infos[0].currency"));
    assert(currency_paths.deep_view() =~= seq![
        "balance_infos[currency=CNY].currency"@,
        "balance_infos[0].currency"@,
    ]);
    let fallbacks: Vec<String> = Vec::new();
    let headers: Vec<(String, String)> = Vec::new();
    let reset_paths: Vec<String> = Vec::new();
    let window_rules: Vec<WindowRule> = Vec::new();
    let array_window_rules: Vec<ArrayWindowRule> = Vec::new();
    HttpSourceConfig {
        provider_id: owned("deepseek"),
        label: settings.label.clone(),
        base_url: settings.base_url.clone(),
        endpoint: settings.balance_endpoint.clone(),
        endpoint_fallbacks: fallbacks,
        enabled: settings.enabled,
        api_key: settings.api_key.clone(),
        auth: AuthMode::Bearer,
        headers,
        timeout_seconds: 8,
        window_id: owned("deepseek-balance"),
        window_key: owned("balance"),
        limit_label: owned("DeepSeek API balance"),
        empty_limit_label: owned("DeepSeek API balance"),
        value_kind: ValueKind::Money,
        low_threshold: settings.low_balance_threshold,
        extraction_rules: rules,
        currency_paths,
        currency_default: Some(owned("CNY")),
        reset_paths,
        transform_script: String::new(),
        window_rules,
        array_window_rules,
    }
}

} // verus!
