use money_like_water::config::{
    builtin_scripts_are_current, default_chatgpt_base_url, default_chatgpt_usage_endpoint,
    default_sources, default_transform_script_for_source, glm_source, is_glm_preset_source,
    is_kimi_preset_source, is_legacy_kimi_transform_script, kimi_source, migrate_settings,
    AiMemberSettings, DataSourceKind, DeepSeekSettings, KimiSettings, MeterAnchor, MeterSettings,
};
use money_like_water::http_source::{join_url, AuthMode, ValueKind};
use money_like_water::providers::{ai_member_source_config, deepseek_source_config};
use money_like_water::sources::{
    http_config_for_source, meter_sources, plan_for_source, settle_refresh,
    unavailable_source_snapshot, SourcePlan,
};
use money_like_water::transform_scripts::{
    AI_MEMBER_TRANSFORM_SCRIPT, CHATGPT_TRANSFORM_SCRIPT, CUSTOM_TRANSFORM_SCRIPT,
    DEEPSEEK_TRANSFORM_SCRIPT, GLM_TRANSFORM_SCRIPT, KIMI_TRANSFORM_SCRIPT,
    SILICONFLOW_TRANSFORM_SCRIPT,
};
use money_like_water::usage::{ProviderUsage, ProviderUsageStatus, UsageWindow};

fn ids(s: &MeterSettings) -> Vec<String> {
    s.sources.iter().map(|x| x.id.clone()).collect()
}

#[test]
fn default_settings_list_the_presets() {
    let s = MeterSettings::default();
    assert_eq!(ids(&s), vec!["chatgpt", "ai-member", "kimi", "deepseek", "siliconflow", "glm"]);
    assert_eq!(s.selected_meter_source, "chatgpt");
    assert_eq!(s.anchor, MeterAnchor::Right);
    assert_eq!(s.offsets.right, 120);
    assert_eq!(s.language, "en");
    assert!(s.taskbar_source_ids.is_empty());
    assert_eq!(ids(&s), default_sources().iter().map(|x| x.id.clone()).collect::<Vec<_>>());
}

#[test]
fn migration_fills_taskbar_ids_and_repairs_sources() {
    let mut s = MeterSettings::default();
    s.language = "fr".to_string();
    s.ai_member.balance_endpoint = "/v1/balance".to_string();
    s.sources.retain(|x| x.id != "glm");
    s.selected_meter_source = "gone".to_string();
    migrate_settings(&mut s);
    assert_eq!(s.language, "en");
    assert_eq!(s.ai_member.balance_endpoint, AiMemberSettings::default().balance_endpoint);
    assert!(ids(&s).contains(&"glm".to_string()));
    assert_eq!(s.taskbar_source_ids, vec!["chatgpt".to_string()]);
    assert_eq!(s.selected_meter_source, "chatgpt");
    assert!(s.sources.iter().all(|x| x.enabled));
}

#[test]
fn migration_keeps_chinese_and_drops_local_chatgpt() {
    let mut s = MeterSettings::default();
    s.language = "zh".to_string();
    let mut local = glm_source();
    local.id = "chatgpt-local".to_string();
    s.sources.push(local);
    migrate_settings(&mut s);
    assert_eq!(s.language, "zh");
    assert!(!ids(&s).contains(&"chatgpt-local".to_string()));
}

#[test]
fn migration_is_idempotent_on_defaults() {
    let mut once = MeterSettings::default();
    migrate_settings(&mut once);
    let mut twice = MeterSettings::default();
    migrate_settings(&mut twice);
    migrate_settings(&mut twice);
    assert_eq!(format!("{:?}", once), format!("{:?}", twice));
}

#[test]
fn migration_turns_kimi_kind_into_http() {
    let mut s = MeterSettings::default();
    let mut k = kimi_source(KimiSettings::default());
    k.id = "kimi-2".to_string();
    k.kind = DataSourceKind::Kimi;
    k.transform_script = String::new();
    s.sources.push(k);
    migrate_settings(&mut s);
    let k = s.sources.iter().find(|x| x.id == "kimi-2").unwrap();
    assert_eq!(k.kind, DataSourceKind::Http);
    assert_eq!(k.transform_script, KIMI_TRANSFORM_SCRIPT);
}

#[test]
fn builtin_scripts_are_not_legacy() {
    for script in [
        CHATGPT_TRANSFORM_SCRIPT,
        AI_MEMBER_TRANSFORM_SCRIPT,
        DEEPSEEK_TRANSFORM_SCRIPT,
        SILICONFLOW_TRANSFORM_SCRIPT,
        GLM_TRANSFORM_SCRIPT,
        KIMI_TRANSFORM_SCRIPT,
        CUSTOM_TRANSFORM_SCRIPT,
    ] {
        assert!(!is_legacy_kimi_transform_script(script));
        assert!(!script.trim().is_empty());
    }
    assert!(is_legacy_kimi_transform_script("json.limits; toWindow(); 'No Kimi usage windows found'"));
}

#[test]
fn presets_are_recognized() {
    let k = kimi_source(KimiSettings::default());
    assert!(is_kimi_preset_source(&k));
    assert!(!is_glm_preset_source(&k));
    assert_eq!(default_transform_script_for_source(&k), Some(KIMI_TRANSFORM_SCRIPT.to_string()));
    let g = glm_source();
    assert!(is_glm_preset_source(&g));
    assert_eq!(default_transform_script_for_source(&g), Some(GLM_TRANSFORM_SCRIPT.to_string()));
}

#[test]
fn http_plan_follows_the_source() {
    let g = glm_source();
    let c = http_config_for_source(&g);
    assert_eq!(c.provider_id, "glm");
    assert_eq!(c.auth, AuthMode::Raw);
    assert_eq!(c.value_kind, ValueKind::Percent);
    assert_eq!(c.window_id, "glm-value");
    assert_eq!(c.window_key, "value");
    assert_eq!(c.limit_label, "HTTP value");
    assert!(c.endpoint_fallbacks.is_empty());
    assert!(c.enabled);
    assert_eq!(c.transform_script, g.transform_script);

    let k = kimi_source(KimiSettings::default());
    let c = http_config_for_source(&k);
    assert_eq!(c.auth, AuthMode::Bearer);
    assert_eq!(c.window_rules.len(), k.parser.windows.len());
    assert_eq!(c.window_rules[0].id, "weekly");
}

#[test]
fn plans_for_missing_chatgpt_and_http_sources() {
    let mut s = MeterSettings::default();
    assert!(matches!(plan_for_source(&s, "nope"), SourcePlan::Missing));
    match plan_for_source(&s, "deepseek") {
        SourcePlan::Http(c) => assert_eq!(c.provider_id, "deepseek"),
        other => panic!("unexpected {:?}", other),
    }
    s.sources[0].kind = DataSourceKind::Chatgpt;
    assert!(matches!(plan_for_source(&s, "chatgpt"), SourcePlan::Chatgpt));
}

#[test]
fn unknown_source_snapshot() {
    let u = unavailable_source_snapshot("zzz");
    assert_eq!(u.provider, "zzz");
    assert_eq!(u.status, ProviderUsageStatus::Unavailable);
    assert_eq!(u.windows[0].id, "zzz-unavailable");
    assert_eq!(u.windows[0].limit_label, Some("data source not found".to_string()));
    assert_eq!(u.message, Some("Data source not found in settings.".to_string()));
    assert_eq!(u.updated_at, None);
}

#[test]
fn meter_shows_listed_sources_or_the_selected_one() {
    let mut s = MeterSettings::default();
    assert_eq!(meter_sources(&s), vec![("chatgpt".to_string(), true)]);
    s.taskbar_source_ids = vec!["kimi".to_string(), "chatgpt".to_string()];
    assert_eq!(meter_sources(&s), vec![("kimi".to_string(), false), ("chatgpt".to_string(), true)]);
}

fn snapshot(provider: &str, status: ProviderUsageStatus, window_id: &str, message: Option<&str>) -> ProviderUsage {
    ProviderUsage {
        provider: provider.to_string(),
        account_label: None,
        plan_label: None,
        credit_balance: None,
        status,
        windows: vec![UsageWindow {
            id: window_id.to_string(),
            label: window_id.to_string(),
            used_percent: 10,
            remaining_percent: 90,
            value_label: None,
            resets_at: None,
            limit_label: None,
            bucket_id: None,
            window_key: None,
        }],
        meter_items: Vec::new(),
        updated_at: None,
        message: message.map(|m| m.to_string()),
        diagnostics: None,
    }
}

#[test]
fn failed_refresh_shows_the_last_success() {
    let mut ok = snapshot("chatgpt", ProviderUsageStatus::Normal, "good", None);
    ok.account_label = Some("me".to_string());
    let (shown, kept) = settle_refresh(ok, None);
    assert_eq!(shown.windows[0].id, "good");
    let kept = kept.unwrap();
    assert_eq!(kept.windows[0].id, "good");

    let failed = snapshot("chatgpt", ProviderUsageStatus::Error, "placeholder", Some("timeout"));
    let (shown, kept) = settle_refresh(failed, Some(kept));
    assert_eq!(shown.status, ProviderUsageStatus::Error);
    assert_eq!(shown.windows[0].id, "good");
    assert_eq!(shown.account_label, Some("me".to_string()));
    assert_eq!(shown.message, Some("timeout 正在沿用上次成功获取的用量数据。".to_string()));
    assert_eq!(kept.unwrap().windows[0].id, "good");
}

#[test]
fn failed_refresh_of_another_provider_is_shown_as_is() {
    let ok = snapshot("kimi", ProviderUsageStatus::Normal, "good", None);
    let failed = snapshot("glm", ProviderUsageStatus::Unavailable, "bad", None);
    let (shown, kept) = settle_refresh(failed, Some(ok));
    assert_eq!(shown.windows[0].id, "bad");
    assert_eq!(shown.message, None);
    assert_eq!(kept.unwrap().provider, "kimi");

    let alone = snapshot("glm", ProviderUsageStatus::Unavailable, "bad", None);
    let (shown, kept) = settle_refresh(alone, None);
    assert_eq!(shown.message, None);
    assert!(kept.is_none());

    let first = snapshot("glm", ProviderUsageStatus::Normal, "ok", None);
    let (_, kept) = settle_refresh(first, None);
    let failed = snapshot("glm", ProviderUsageStatus::Error, "bad", None);
    let (shown, _) = settle_refresh(failed, kept);
    assert_eq!(shown.message, Some("正在沿用上次成功获取的用量数据。".to_string()));
}

#[test]
fn legacy_provider_plans() {
    let c = ai_member_source_config(&AiMemberSettings::default());
    assert_eq!(c.provider_id, "ai_member");
    assert_eq!(c.endpoint_fallbacks.len(), 4);
    assert_eq!(c.extraction_rules.len(), 15 + 4 + 2 + 1);
    assert_eq!(c.extraction_rules[21].path, "cents");
    assert_eq!(f64::from_bits(c.extraction_rules[21].divisor.bits), 100.0);
    assert_eq!(c.headers[1].0, "referer");
    assert_eq!(c.headers[1].1, format!("{}/keys", AiMemberSettings::default().base_url.trim_end_matches('/')));
    assert_eq!(c.currency_default, Some("USD".to_string()));

    let d = deepseek_source_config(&DeepSeekSettings::default());
    assert_eq!(d.provider_id, "deepseek");
    assert_eq!(d.extraction_rules[0].path, "balance_infos[currency=CNY].total_balance");
    assert_eq!(d.currency_paths[1], "balance_infos[0].currency");
    assert_eq!(d.currency_default, Some("CNY".to_string()));
}

#[test]
fn builtin_scripts_pass_the_verified_check() {
    assert!(builtin_scripts_are_current());
}

#[test]
fn chatgpt_preset_targets_the_usage_endpoint() {
    assert_eq!(
        join_url(&default_chatgpt_base_url(), &default_chatgpt_usage_endpoint()),
        "https://chatgpt.com/backend-api/wham/usage"
    );
}

#[test]
fn kept_success_is_always_normal() {
    let mut kept: Option<ProviderUsage> = None;
    for status in [
        ProviderUsageStatus::Error,
        ProviderUsageStatus::Normal,
        ProviderUsageStatus::Unavailable,
        ProviderUsageStatus::Unauthorized,
    ] {
        let (_, next) = settle_refresh(snapshot("chatgpt", status, "w", None), kept);
        if let Some(ok) = &next {
            assert_eq!(ok.status, ProviderUsageStatus::Normal);
        }
        kept = next;
    }
    assert!(kept.is_some());
}
