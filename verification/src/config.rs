//! Meter settings: the data-source list, its built-in presets, and the
//! migration that brings settings written by older versions up to date.

use vstd::prelude::*;
use crate::json::FloatBits;
use crate::text::{
    chars_are, chars_begin_with, copy_opt_string, copy_strings, lowercase, lowercase_chars, owned,
    starts_with, str_contains, strip_end_char, strip_end_chars, trim, trim_chars,
    chars_of, contains,
};
use crate::transform_scripts::{
    AI_MEMBER_TRANSFORM_SCRIPT, CHATGPT_TRANSFORM_SCRIPT, CUSTOM_TRANSFORM_SCRIPT,
    DEEPSEEK_TRANSFORM_SCRIPT, GLM_TRANSFORM_SCRIPT, KIMI_TRANSFORM_SCRIPT,
    SILICONFLOW_TRANSFORM_SCRIPT,
};

verus! {

// ------------------------------------------------------------------------
// Settings types
// ------------------------------------------------------------------------

/// Where on the taskbar the meter sits.
#[derive(Clone, Copy, PartialEq, Eq, Structural, Debug)]
pub enum MeterAnchor {
    Left,
    Center,
    Right,
}

/// Pixel offsets applied to the meter's anchored position.
#[derive(Clone, Copy, PartialEq, Eq, Structural, Debug)]
pub struct MeterOffsets {
    pub left: i32,
    pub right: i32,
    pub top: i32,
    pub bottom: i32,
}

/// How a data source is queried.
#[derive(Clone, Copy, PartialEq, Eq, Structural, Debug)]
pub enum DataSourceKind {
    Chatgpt,
    Kimi,
    Http,
}

/// Which legacy sources are shown on the taskbar.
#[derive(Clone, Copy, PartialEq, Eq, Structural, Debug)]
pub struct TaskbarSources {
    pub chatgpt: bool,
    pub ai_member: bool,
    pub kimi: bool,
    pub deepseek: bool,
}

/// One extra HTTP request header.
#[derive(Debug)]
pub struct HeaderSetting {
    pub name: String,
    pub value: String,
}

/// A value path and the divisor applied to the number it reads.
#[derive(Debug)]
pub struct ValuePathSetting {
    pub path: String,
    pub divisor: FloatBits,
}

/// A usage window read from one object of the reply.
#[derive(Debug)]
pub struct HttpWindowSettings {
    pub id: String,
    pub label: String,
    pub root_path: String,
    pub limit_path: String,
    pub remaining_path: String,
    pub used_path: Option<String>,
    pub reset_path: Option<String>,
    pub limit_label: Option<String>,
    pub window_key: Option<String>,
}

/// Usage windows read from each item of an array of the reply.
#[derive(Debug)]
pub struct HttpArrayWindowSettings {
    pub id_prefix: String,
    pub label: String,
    pub array_path: String,
    pub item_root_path: String,
    pub limit_path: String,
    pub remaining_path: String,
    pub used_path: Option<String>,
    pub reset_path: Option<String>,
    pub limit_label: Option<String>,
    pub window_key_prefix: Option<String>,
}

/// How an HTTP reply is read when no transform script applies.
#[derive(Debug)]
pub struct HttpParserSettings {
    pub value_paths: Vec<ValuePathSetting>,
    pub currency_paths: Vec<String>,
    pub currency_default: Option<String>,
    pub reset_paths: Vec<String>,
    pub value_format: String,
    pub windows: Vec<HttpWindowSettings>,
    pub array_windows: Vec<HttpArrayWindowSettings>,
}

/// One configured data source.
#[derive(Debug)]
pub struct DataSourceSettings {
    pub id: String,
    pub kind: DataSourceKind,
    pub enabled: bool,
    pub label: String,
    pub base_url: String,
    pub endpoint: String,
    pub api_key: String,
    pub auth_mode: String,
    pub headers: Vec<HeaderSetting>,
    pub parser: HttpParserSettings,
    pub transform_script: String,
    pub low_balance_threshold: Option<FloatBits>,
    pub timeout_seconds: u64,
}

/// Settings of the legacy AI-MEMBER source.
#[derive(Debug)]
pub struct AiMemberSettings {
    pub enabled: bool,
    pub label: String,
    pub base_url: String,
    pub api_key: String,
    pub balance_endpoint: String,
    pub low_balance_threshold: Option<FloatBits>,
    pub balance_divisor: FloatBits,
}

/// Settings of the legacy Kimi Code source.
#[derive(Debug)]
pub struct KimiSettings {
    pub enabled: bool,
    pub label: String,
    pub base_url: String,
    pub api_key: String,
    pub usage_endpoint: String,
    pub low_balance_threshold: Option<FloatBits>,
}

/// Settings of the legacy DeepSeek source.
#[derive(Debug)]
pub struct DeepSeekSettings {
    pub enabled: bool,
    pub label: String,
    pub base_url: String,
    pub api_key: String,
    pub balance_endpoint: String,
    pub low_balance_threshold: Option<FloatBits>,
}

/// Look of the taskbar meter.
#[derive(Debug)]
pub struct TaskbarAppearance {
    pub text_size_px: FloatBits,
    pub reset_text_size_px: FloatBits,
    pub text_color: String,
    pub progress_color: String,
}

/// All meter settings.
#[derive(Debug)]
pub struct MeterSettings {
    pub language: String,
    pub anchor: MeterAnchor,
    pub offsets: MeterOffsets,
    pub selected_usage_window_id: Option<String>,
    pub selected_meter_source: String,
    pub sources: Vec<DataSourceSettings>,
    pub ai_member: AiMemberSettings,
    pub kimi: KimiSettings,
    pub deepseek: DeepSeekSettings,
    pub taskbar_sources: TaskbarSources,
    pub taskbar_source_ids: Vec<String>,
    pub taskbar_scroll_seconds: FloatBits,
    pub taskbar_scroll_animation_seconds: FloatBits,
    pub taskbar_appearance: TaskbarAppearance,
    pub query_refresh_seconds: FloatBits,
}

// ------------------------------------------------------------------------
// Views
// ------------------------------------------------------------------------

/// `HttpWindowSettings` as characters.
pub ghost struct WindowView {
    pub id: Seq<char>,
    pub label: Seq<char>,
    pub root_path: Seq<char>,
    pub limit_path: Seq<char>,
    pub remaining_path: Seq<char>,
    pub used_path: Option<Seq<char>>,
    pub reset_path: Option<Seq<char>>,
    pub limit_label: Option<Seq<char>>,
    pub window_key: Option<Seq<char>>,
}

/// `HttpArrayWindowSettings` as characters.
pub ghost struct ArrayWindowView {
    pub id_prefix: Seq<char>,
    pub label: Seq<char>,
    pub array_path: Seq<char>,
    pub item_root_path: Seq<char>,
    pub limit_path: Seq<char>,
    pub remaining_path: Seq<char>,
    pub used_path: Option<Seq<char>>,
    pub reset_path: Option<Seq<char>>,
    pub limit_label: Option<Seq<char>>,
    pub window_key_prefix: Option<Seq<char>>,
}

/// `HttpParserSettings` as characters.
pub ghost struct ParserView {
    pub value_paths: Seq<(Seq<char>, FloatBits)>,
    pub currency_paths: Seq<Seq<char>>,
    pub currency_default: Option<Seq<char>>,
    pub reset_paths: Seq<Seq<char>>,
    pub value_format: Seq<char>,
    pub windows: Seq<WindowView>,
    pub array_windows: Seq<ArrayWindowView>,
}

/// `DataSourceSettings` as characters.
pub ghost struct SourceView {
    pub id: Seq<char>,
    pub kind: DataSourceKind,
    pub enabled: bool,
    pub label: Seq<char>,
    pub base_url: Seq<char>,
    pub endpoint: Seq<char>,
    pub api_key: Seq<char>,
    pub auth_mode: Seq<char>,
    pub headers: Seq<(Seq<char>, Seq<char>)>,
    pub parser: ParserView,
    pub transform_script: Seq<char>,
    pub low_balance_threshold: Option<FloatBits>,
    pub timeout_seconds: u64,
}

/// `AiMemberSettings` as characters.
pub ghost struct AiMemberView {
    pub enabled: bool,
    pub label: Seq<char>,
    pub base_url: Seq<char>,
    pub api_key: Seq<char>,
    pub balance_endpoint: Seq<char>,
    pub low_balance_threshold: Option<FloatBits>,
    pub balance_divisor: FloatBits,
}

/// `KimiSettings` as characters.
pub ghost struct KimiView {
    pub enabled: bool,
    pub label: Seq<char>,
    pub base_url: Seq<char>,
    pub api_key: Seq<char>,
    pub usage_endpoint: Seq<char>,
    pub low_balance_threshold: Option<FloatBits>,
}

/// `DeepSeekSettings` as characters.
pub ghost struct DeepSeekView {
    pub enabled: bool,
    pub label: Seq<char>,
    pub base_url: Seq<char>,
    pub api_key: Seq<char>,
    pub balance_endpoint: Seq<char>,
    pub low_balance_threshold: Option<FloatBits>,
}

/// `TaskbarAppearance` as characters.
pub ghost struct AppearanceView {
    pub text_size_px: FloatBits,
    pub reset_text_size_px: FloatBits,
    pub text_color: Seq<char>,
    pub progress_color: Seq<char>,
}

/// `MeterSettings` as characters.
pub ghost struct SettingsView {
    pub language: Seq<char>,
    pub anchor: MeterAnchor,
    pub offsets: MeterOffsets,
    pub selected_usage_window_id: Option<Seq<char>>,
    pub selected_meter_source: Seq<char>,
    pub sources: Seq<SourceView>,
    pub ai_member: AiMemberView,
    pub kimi: KimiView,
    pub deepseek: DeepSeekView,
    pub taskbar_sources: TaskbarSources,
    pub taskbar_source_ids: Seq<Seq<char>>,
    pub taskbar_scroll_seconds: FloatBits,
    pub taskbar_scroll_animation_seconds: FloatBits,
    pub taskbar_appearance: AppearanceView,
    pub query_refresh_seconds: FloatBits,
}

impl DeepView for HeaderSetting {
    type V = (Seq<char>, Seq<char>);

    open spec fn deep_view(&self) -> (Seq<char>, Seq<char>) {
        (self.name@, self.value@)
    }
}

impl DeepView for ValuePathSetting {
    type V = (Seq<char>, FloatBits);

    open spec fn deep_view(&self) -> (Seq<char>, FloatBits) {
        (self.path@, self.divisor)
    }
}

impl DeepView for HttpWindowSettings {
    type V = WindowView;

    open spec fn deep_view(&self) -> WindowView {
        WindowView {
            id: self.id@,
            label: self.label@,
            root_path: self.root_path@,
            limit_path: self.limit_path@,
            remaining_path: self.remaining_path@,
            used_path: self.used_path.deep_view(),
            reset_path: self.reset_path.deep_view(),
            limit_label: self.limit_label.deep_view(),
            window_key: self.window_key.deep_view(),
        }
    }
}

impl DeepView for HttpArrayWindowSettings {
    type V = ArrayWindowView;

    open spec fn deep_view(&self) -> ArrayWindowView {
        ArrayWindowView {
            id_prefix: self.id_prefix@,
            label: self.label@,
            array_path: self.array_path@,
            item_root_path: self.item_root_path@,
            limit_path: self.limit_path@,
            remaining_path: self.remaining_path@,
            used_path: self.used_path.deep_view(),
            reset_path: self.reset_path.deep_view(),
            limit_label: self.limit_label.deep_view(),
            window_key_prefix: self.window_key_prefix.deep_view(),
        }
    }
}

impl DeepView for HttpParserSettings {
    type V = ParserView;

    open spec fn deep_view(&self) -> ParserView {
        ParserView {
            value_paths: self.value_paths.deep_view(),
            currency_paths: self.currency_paths.deep_view(),
            currency_default: self.currency_default.deep_view(),
            reset_paths: self.reset_paths.deep_view(),
            value_format: self.value_format@,
            windows: self.windows.deep_view(),
            array_windows: self.array_windows.deep_view(),
        }
    }
}

impl DeepView for DataSourceSettings {
    type V = SourceView;

    open spec fn deep_view(&self) -> SourceView {
        SourceView {
            id: self.id@,
            kind: self.kind,
            enabled: self.enabled,
            label: self.label@,
            base_url: self.base_url@,
            endpoint: self.endpoint@,
            api_key: self.api_key@,
            auth_mode: self.auth_mode@,
            headers: self.headers.deep_view(),
            parser: self.parser.deep_view(),
            transform_script: self.transform_script@,
            low_balance_threshold: self.low_balance_threshold,
            timeout_seconds: self.timeout_seconds,
        }
    }
}

impl DeepView for AiMemberSettings {
    type V = AiMemberView;

    open spec fn deep_view(&self) -> AiMemberView {
        AiMemberView {
            enabled: self.enabled,
            label: self.label@,
            base_url: self.base_url@,
            api_key: self.api_key@,
            balance_endpoint: self.balance_endpoint@,
            low_balance_threshold: self.low_balance_threshold,
            balance_divisor: self.balance_divisor,
        }
    }
}

impl DeepView for KimiSettings {
    type V = KimiView;

    open spec fn deep_view(&self) -> KimiView {
        KimiView {
            enabled: self.enabled,
            label: self.label@,
            base_url: self.base_url@,
            api_key: self.api_key@,
            usage_endpoint: self.usage_endpoint@,
            low_balance_threshold: self.low_balance_threshold,
        }
    }
}

impl DeepView for DeepSeekSettings {
    type V = DeepSeekView;

    open spec fn deep_view(&self) -> DeepSeekView {
        DeepSeekView {
            enabled: self.enabled,
            label: self.label@,
            base_url: self.base_url@,
            api_key: self.api_key@,
            balance_endpoint: self.balance_endpoint@,
            low_balance_threshold: self.low_balance_threshold,
        }
    }
}

impl DeepView for TaskbarAppearance {
    type V = AppearanceView;

    open spec fn deep_view(&self) -> AppearanceView {
        AppearanceView {
            text_size_px: self.text_size_px,
            reset_text_size_px: self.reset_text_size_px,
            text_color: self.text_color@,
            progress_color: self.progress_color@,
        }
    }
}

impl DeepView for MeterSettings {
    type V = SettingsView;

    open spec fn deep_view(&self) -> SettingsView {
        SettingsView {
            language: self.language@,
            anchor: self.anchor,
            offsets: self.offsets,
            selected_usage_window_id: self.selected_usage_window_id.deep_view(),
            selected_meter_source: self.selected_meter_source@,
            sources: self.sources.deep_view(),
            ai_member: self.ai_member.deep_view(),
            kimi: self.kimi.deep_view(),
            deepseek: self.deepseek.deep_view(),
            taskbar_sources: self.taskbar_sources,
            taskbar_source_ids: self.taskbar_source_ids.deep_view(),
            taskbar_scroll_seconds: self.taskbar_scroll_seconds,
            taskbar_scroll_animation_seconds: self.taskbar_scroll_animation_seconds,
            taskbar_appearance: self.taskbar_appearance.deep_view(),
            query_refresh_seconds: self.query_refresh_seconds,
        }
    }
}

// ------------------------------------------------------------------------
// Built-in values
// ------------------------------------------------------------------------

/// Default interface language.
pub const DEFAULT_LANGUAGE: &'static str = "en";
/// Default authentication mode of an HTTP source.
pub const DEFAULT_AUTH_MODE: &'static str = "bearer";
/// Authentication mode that sends the API key as is.
pub const RAW_AUTH_MODE: &'static str = "raw";
/// Default value format of an HTTP source.
pub const DEFAULT_VALUE_FORMAT: &'static str = "money";
/// Value format of sources that report percentages.
pub const PERCENT_VALUE_FORMAT: &'static str = "percent";
/// Default path of a window's limit.
pub const DEFAULT_LIMIT_PATH: &'static str = "limit";
/// Default path of a window's remaining amount.
pub const DEFAULT_REMAINING_PATH: &'static str = "remaining";
/// Default path of a window's reset time.
pub const DEFAULT_RESET_PATH: &'static str = "resetTime";
/// Base URL of the ChatGPT backend.
pub const DEFAULT_CHATGPT_BASE_URL: &'static str = "https://chatgpt.com/backend-api";
/// Usage endpoint of the ChatGPT backend.
pub const DEFAULT_CHATGPT_USAGE_ENDPOINT: &'static str = "/wham/usage";
/// The usage endpoint that older settings used for ChatGPT.
pub const LEGACY_CHATGPT_ENDPOINT: &'static str = "/accounts/check/v4-2024-01-01";
/// Default taskbar text color.
pub const DEFAULT_TASKBAR_TEXT_COLOR: &'static str = "#f6f8fb";
/// Default taskbar progress color.
pub const DEFAULT_TASKBAR_PROGRESS_COLOR: &'static str = "#45d483";
/// Label of the AI-MEMBER source.
pub const DEFAULT_AI_MEMBER_LABEL: &'static str = "AI-MEMBER";
/// Base URL of the AI-MEMBER source.
pub const DEFAULT_AI_MEMBER_BASE_URL: &'static str = "https://proxy.ai-member.icu";
/// Balance endpoint of the AI-MEMBER source.
pub const DEFAULT_AI_MEMBER_BALANCE_ENDPOINT: &'static str = "/api/v1/auth/me?timezone=Asia%2FShanghai";
/// Label of the Kimi Code source.
pub const DEFAULT_KIMI_LABEL: &'static str = "Kimi Code";
/// Base URL of the Kimi Code source.
pub const DEFAULT_KIMI_BASE_URL: &'static str = "https://api.kimi.com/coding/v1";
/// Usage endpoint of the Kimi Code source.
pub const DEFAULT_KIMI_BALANCE_ENDPOINT: &'static str = "/usages";
/// Label of the DeepSeek source.
pub const DEFAULT_DEEPSEEK_LABEL: &'static str = "DeepSeek";
/// Base URL of the DeepSeek source.
pub const DEFAULT_DEEPSEEK_BASE_URL: &'static str = "https://api.deepseek.com";
/// Balance endpoint of the DeepSeek source.
pub const DEFAULT_DEEPSEEK_BALANCE_ENDPOINT: &'static str = "/user/balance";
/// Base URL of the SiliconFlow source.
pub const DEFAULT_SILICONFLOW_BASE_URL: &'static str = "https://api.siliconflow.cn/v1";
/// User-info endpoint of the SiliconFlow source.
pub const DEFAULT_SILICONFLOW_USER_INFO_ENDPOINT: &'static str = "/user/info";
/// Base URL of the GLM quota API.
pub const DEFAULT_GLM_QUOTA_BASE_URL: &'static str = "https://bigmodel.cn";
/// Quota endpoint of the GLM API.
pub const DEFAULT_GLM_QUOTA_ENDPOINT: &'static str = "/api/monitor/usage/quota/limit";

/// `1.0`.
pub open spec fn one() -> FloatBits {
    FloatBits { bits: 0x3ff0000000000000 }
}

/// `10.0`.
pub open spec fn ten() -> FloatBits {
    FloatBits { bits: 0x4024000000000000 }
}

/// `30.0`.
pub open spec fn thirty() -> FloatBits {
    FloatBits { bits: 0x403e000000000000 }
}

/// `100.0`.
pub open spec fn hundred() -> FloatBits {
    FloatBits { bits: 0x4059000000000000 }
}

/// `3.2`, the default seconds between taskbar scrolls.
pub open spec fn default_scroll_seconds() -> FloatBits {
    FloatBits { bits: 0x400999999999999a }
}

/// `0.35`, the default seconds of a taskbar scroll animation.
pub open spec fn default_scroll_animation_seconds() -> FloatBits {
    FloatBits { bits: 0x3fd6666666666666 }
}

/// `60.0`, the default seconds between usage queries.
pub open spec fn default_refresh_seconds() -> FloatBits {
    FloatBits { bits: 0x404e000000000000 }
}

/// `9.0`, the default taskbar text size.
pub open spec fn default_text_size() -> FloatBits {
    FloatBits { bits: 0x4022000000000000 }
}

/// `8.0`, the default taskbar reset-text size.
pub open spec fn default_reset_text_size() -> FloatBits {
    FloatBits { bits: 0x4020000000000000 }
}

/// `500000.0`, the default AI-MEMBER quota divisor.
pub open spec fn default_balance_divisor() -> FloatBits {
    FloatBits { bits: 0x411e848000000000 }
}

/// `true`.
pub fn default_true() -> (r: bool)
    ensures
        r,
{
    true
}

/// `"en"`.
pub fn default_language() -> (r: String)
    ensures
        r@ == DEFAULT_LANGUAGE@,
{
    owned(DEFAULT_LANGUAGE)
}

/// `3.2` seconds.
pub fn default_taskbar_scroll_seconds() -> (r: FloatBits)
    ensures
        r == default_scroll_seconds(),
{
    FloatBits { bits: 0x400999999999999a }
}

/// `0.35` seconds.
pub fn default_taskbar_scroll_animation_seconds() -> (r: FloatBits)
    ensures
        r == default_scroll_animation_seconds(),
{
    FloatBits { bits: 0x3fd6666666666666 }
}

/// `60.0` seconds.
pub fn default_query_refresh_seconds() -> (r: FloatBits)
    ensures
        r == default_refresh_seconds(),
{
    FloatBits { bits: 0x404e000000000000 }
}

/// `"bearer"`.
pub fn default_auth_mode() -> (r: String)
    ensures
        r@ == DEFAULT_AUTH_MODE@,
{
    owned(DEFAULT_AUTH_MODE)
}

/// `8` seconds.
pub fn default_timeout_seconds() -> (r: u64)
    ensures
        r == 8,
{
    8
}

/// `1.0`.
pub fn default_path_divisor() -> (r: FloatBits)
    ensures
        r == one(),
{
    FloatBits { bits: 0x3ff0000000000000 }
}

/// `"money"`.
pub fn default_value_format() -> (r: String)
    ensures
        r@ == DEFAULT_VALUE_FORMAT@,
{
    owned(DEFAULT_VALUE_FORMAT)
}

/// `"limit"`.
pub fn default_limit_path() -> (r: String)
    ensures
        r@ == DEFAULT_LIMIT_PATH@,
{
    owned(DEFAULT_LIMIT_PATH)
}

/// `"remaining"`.
pub fn default_remaining_path() -> (r: String)
    ensures
        r@ == DEFAULT_REMAINING_PATH@,
{
    owned(DEFAULT_REMAINING_PATH)
}

/// `Some("resetTime")`.
pub fn default_reset_path() -> (r: Option<String>)
    ensures
        r.deep_view() == Some(DEFAULT_RESET_PATH@),
{
    Some(owned(DEFAULT_RESET_PATH))
}

/// The ChatGPT backend base URL.
pub fn default_chatgpt_base_url() -> (r: String)
    ensures
        r@ == DEFAULT_CHATGPT_BASE_URL@,
{
    owned(DEFAULT_CHATGPT_BASE_URL)
}

/// The ChatGPT usage endpoint.
pub fn default_chatgpt_usage_endpoint() -> (r: String)
    ensures
        r@ == DEFAULT_CHATGPT_USAGE_ENDPOINT@,
{
    owned(DEFAULT_CHATGPT_USAGE_ENDPOINT)
}

/// `9.0` pixels.
pub fn default_taskbar_text_size_px() -> (r: FloatBits)
    ensures
        r == default_text_size(),
{
    FloatBits { bits: 0x4022000000000000 }
}

/// `8.0` pixels.
pub fn default_taskbar_reset_text_size_px() -> (r: FloatBits)
    ensures
        r == default_reset_text_size(),
{
    FloatBits { bits: 0x4020000000000000 }
}

/// `"#f6f8fb"`.
pub fn default_taskbar_text_color() -> (r: String)
    ensures
        r@ == DEFAULT_TASKBAR_TEXT_COLOR@,
{
    owned(DEFAULT_TASKBAR_TEXT_COLOR)
}

/// `"#45d483"`.
pub fn default_taskbar_progress_color() -> (r: String)
    ensures
        r@ == DEFAULT_TASKBAR_PROGRESS_COLOR@,
{
    owned(DEFAULT_TASKBAR_PROGRESS_COLOR)
}

/// `"AI-MEMBER"`.
pub fn default_ai_member_label() -> (r: String)
    ensures
        r@ == DEFAULT_AI_MEMBER_LABEL@,
{
    owned(DEFAULT_AI_MEMBER_LABEL)
}

/// The AI-MEMBER base URL.
pub fn default_ai_member_base_url() -> (r: String)
    ensures
        r@ == DEFAULT_AI_MEMBER_BASE_URL@,
{
    owned(DEFAULT_AI_MEMBER_BASE_URL)
}

/// The AI-MEMBER balance endpoint.
pub fn default_ai_member_balance_endpoint() -> (r: String)
    ensures
        r@ == DEFAULT_AI_MEMBER_BALANCE_ENDPOINT@,
{
    owned(DEFAULT_AI_MEMBER_BALANCE_ENDPOINT)
}

/// `500000.0`.
pub fn default_ai_member_balance_divisor() -> (r: FloatBits)
    ensures
        r == default_balance_divisor(),
{
    FloatBits { bits: 0x411e848000000000 }
}

/// `"Kimi Code"`.
pub fn default_kimi_label() -> (r: String)
    ensures
        r@ == DEFAULT_KIMI_LABEL@,
{
    owned(DEFAULT_KIMI_LABEL)
}

/// The Kimi Code base URL.
pub fn default_kimi_base_url() -> (r: String)
    ensures
        r@ == DEFAULT_KIMI_BASE_URL@,
{
    owned(DEFAULT_KIMI_BASE_URL)
}

/// The Kimi Code usage endpoint.
pub fn default_kimi_balance_endpoint() -> (r: String)
    ensures
        r@ == DEFAULT_KIMI_BALANCE_ENDPOINT@,
{
    owned(DEFAULT_KIMI_BALANCE_ENDPOINT)
}

/// `"DeepSeek"`.
pub fn default_deepseek_label() -> (r: String)
    ensures
        r@ == DEFAULT_DEEPSEEK_LABEL@,
{
    owned(DEFAULT_DEEPSEEK_LABEL)
}

/// The DeepSeek base URL.
pub fn default_deepseek_base_url() -> (r: String)
    ensures
        r@ == DEFAULT_DEEPSEEK_BASE_URL@,
{
    owned(DEFAULT_DEEPSEEK_BASE_URL)
}

/// The DeepSeek balance endpoint.
pub fn default_deepseek_balance_endpoint() -> (r: String)
    ensures
        r@ == DEFAULT_DEEPSEEK_BALANCE_ENDPOINT@,
{
    owned(DEFAULT_DEEPSEEK_BALANCE_ENDPOINT)
}

/// The SiliconFlow base URL.
pub fn default_siliconflow_base_url() -> (r: String)
    ensures
        r@ == DEFAULT_SILICONFLOW_BASE_URL@,
{
    owned(DEFAULT_SILICONFLOW_BASE_URL)
}

/// The SiliconFlow user-info endpoint.
pub fn default_siliconflow_user_info_endpoint() -> (r: String)
    ensures
        r@ == DEFAULT_SILICONFLOW_USER_INFO_ENDPOINT@,
{
    owned(DEFAULT_SILICONFLOW_USER_INFO_ENDPOINT)
}

/// The GLM quota base URL.
pub fn default_glm_quota_base_url() -> (r: String)
    ensures
        r@ == DEFAULT_GLM_QUOTA_BASE_URL@,
{
    owned(DEFAULT_GLM_QUOTA_BASE_URL)
}

/// The GLM quota endpoint.
pub fn default_glm_quota_endpoint() -> (r: String)
    ensures
        r@ == DEFAULT_GLM_QUOTA_ENDPOINT@,
{
    owned(DEFAULT_GLM_QUOTA_ENDPOINT)
}

/// The ChatGPT transform script.
pub fn chatgpt_transform_script() -> (r: String)
    ensures
        r@ == CHATGPT_TRANSFORM_SCRIPT@,
{
    owned(CHATGPT_TRANSFORM_SCRIPT)
}

/// The AI-MEMBER transform script.
pub fn ai_member_transform_script() -> (r: String)
    ensures
        r@ == AI_MEMBER_TRANSFORM_SCRIPT@,
{
    owned(AI_MEMBER_TRANSFORM_SCRIPT)
}

/// The DeepSeek transform script.
pub fn deepseek_transform_script() -> (r: String)
    ensures
        r@ == DEEPSEEK_TRANSFORM_SCRIPT@,
{
    owned(DEEPSEEK_TRANSFORM_SCRIPT)
}

/// The SiliconFlow transform script.
pub fn siliconflow_transform_script() -> (r: String)
    ensures
        r@ == SILICONFLOW_TRANSFORM_SCRIPT@,
{
    owned(SILICONFLOW_TRANSFORM_SCRIPT)
}

/// The GLM transform script.
pub fn glm_transform_script() -> (r: String)
    ensures
        r@ == GLM_TRANSFORM_SCRIPT@,
{
    owned(GLM_TRANSFORM_SCRIPT)
}

/// The Kimi Code transform script.
pub fn kimi_transform_script() -> (r: String)
    ensures
        r@ == KIMI_TRANSFORM_SCRIPT@,
{
    owned(KIMI_TRANSFORM_SCRIPT)
}

/// The transform script offered for custom sources.
pub fn custom_transform_script() -> (r: String)
    ensures
        r@ == CUSTOM_TRANSFORM_SCRIPT@,
{
    owned(CUSTOM_TRANSFORM_SCRIPT)
}

// ------------------------------------------------------------------------
// Built-in sources
// ------------------------------------------------------------------------

/// Paths at which AI-MEMBER replies carry a dollar amount.
pub open spec fn amount_paths() -> Seq<Seq<char>> {
    seq![
        "data.user_usd_available"@,
        "data.total_usd_available"@,
        "data.remaining_usd"@,
        "data.available_usd"@,
        "user_usd_available"@,
        "total_usd_available"@,
        "remaining_usd"@,
        "available_usd"@,
        "data.remaining"@,
        "data.balance"@,
        "data.available"@,
        "balance"@,
        "remaining"@,
        "available"@,
        "usd"@,
    ]
}

/// Paths at which AI-MEMBER replies carry a quota in units.
pub open spec fn quota_paths() -> Seq<Seq<char>> {
    seq![
        "data.total_available"@,
        "data.remaining_quota"@,
        "total_available"@,
        "remaining_quota"@,
    ]
}

/// The AI-MEMBER amount paths.
pub fn amount_path_list() -> (r: Vec<String>)
    ensures
        r.deep_view() == amount_paths(),
{
    let mut v: Vec<String> = Vec::new();
    v.push(owned("data.user_usd_available"));
    v.push(owned("data.total_usd_available"));
    v.push(owned("data.remaining_usd"));
    v.push(owned("data.available_usd"));
    v.push(owned("user_usd_available"));
    v.push(owned("total_usd_available"));
    v.push(owned("remaining_usd"));
    v.push(owned("available_usd"));
    v.push(owned("data.remaining"));
    v.push(owned("data.balance"));
    v.push(owned("data.available"));
    v.push(owned("balance"));
    v.push(owned("remaining"));
    v.push(owned("available"));
    v.push(owned("usd"));
    assert(v.deep_view() =~= amount_paths());
    v
}

/// The AI-MEMBER quota paths.
pub fn quota_path_list() -> (r: Vec<String>)
    ensures
        r.deep_view() == quota_paths(),
{
    let mut v: Vec<String> = Vec::new();
    v.push(owned("data.total_available"));
    v.push(owned("data.remaining_quota"));
    v.push(owned("total_available"));
    v.push(owned("remaining_quota"));
    assert(v.deep_view() =~= quota_paths());
    v
}

/// Each path paired with the divisor `d`.
pub open spec fn with_divisor(paths: Seq<Seq<char>>, d: FloatBits) -> Seq<(Seq<char>, FloatBits)> {
    paths.map_values(|p: Seq<char>| (p, d))
}

/// Appends each of `paths`, with divisor `d`, to `out`.
pub fn push_value_paths(out: &mut Vec<ValuePathSetting>, paths: &Vec<String>, d: FloatBits)
    ensures
        final(out).deep_view() == old(out).deep_view() + with_divisor(paths.deep_view(), d),
{
    let ghost start = old(out).deep_view();
    let mut i: usize = 0;
    while i < paths.len()
        invariant
            i <= paths@.len(),
            out.deep_view() == start + with_divisor(paths.deep_view().take(i as int), d),
        decreases paths@.len() - i,
    {
        let ghost prev = out.deep_view();
        out.push(ValuePathSetting { path: paths[i].clone(), divisor: d });
        assert(out.deep_view() =~= prev.push((paths@[i as int]@, d)));
        assert(with_divisor(paths.deep_view().take(i as int + 1), d) =~= with_divisor(
            paths.deep_view().take(i as int),
            d,
        ).push((paths@[i as int]@, d)));
        assert(out.deep_view() =~= start + with_divisor(paths.deep_view().take(i as int + 1), d));
        i = i + 1;
    }
    assert(paths.deep_view().take(paths@.len() as int) =~= paths.deep_view());
}

/// The value paths of the AI-MEMBER preset, quota paths divided by `d`.
pub open spec fn ai_member_value_paths(d: FloatBits) -> Seq<(Seq<char>, FloatBits)> {
    with_divisor(amount_paths(), one()) + with_divisor(quota_paths(), d) + seq![("cents"@, hundred())]
}

/// A parser with the given fields and no reset paths or array windows.
pub open spec fn parser_of(
    value_paths: Seq<(Seq<char>, FloatBits)>,
    currency_paths: Seq<Seq<char>>,
    currency_default: Option<Seq<char>>,
    value_format: Seq<char>,
    windows: Seq<WindowView>,
) -> ParserView {
    ParserView {
        value_paths,
        currency_paths,
        currency_default,
        reset_paths: Seq::empty(),
        value_format,
        windows,
        array_windows: Seq::empty(),
    }
}

/// The parser of a source that reads nothing itself: money in USD.
pub open spec fn default_parser_view() -> ParserView {
    parser_of(Seq::empty(), Seq::empty(), Some("USD"@), DEFAULT_VALUE_FORMAT@, Seq::empty())
}

/// The weekly window of the Kimi Code preset.
pub open spec fn kimi_weekly_window() -> WindowView {
    WindowView {
        id: "weekly"@,
        label: "周额度"@,
        root_path: "usage"@,
        limit_path: "limit"@,
        remaining_path: "remaining"@,
        used_path: Some("used"@),
        reset_path: Some("resetTime"@),
        limit_label: Some("Kimi Code 周额度"@),
        window_key: Some("weekly"@),
    }
}

/// The parser of the Kimi Code preset.
pub open spec fn kimi_parser_view() -> ParserView {
    parser_of(Seq::empty(), Seq::empty(), None, PERCENT_VALUE_FORMAT@, seq![kimi_weekly_window()])
}

/// The parser of the DeepSeek preset.
pub open spec fn deepseek_parser_view() -> ParserView {
    parser_of(
        seq![
            ("balance_infos[currency=CNY].total_balance"@, one()),
            ("balance_infos[0].total_balance"@, one()),
        ],
        seq!["balance_infos[currency=CNY].currency"@, "balance_infos[0].currency"@],
        Some("CNY"@),
        DEFAULT_VALUE_FORMAT@,
        Seq::empty(),
    )
}

/// The parser of the SiliconFlow preset.
pub open spec fn siliconflow_parser_view() -> ParserView {
    parser_of(
        seq![("data.balance"@, one()), ("balance"@, one())],
        seq!["data.currency"@, "currency"@],
        Some("CNY"@),
        DEFAULT_VALUE_FORMAT@,
        Seq::empty(),
    )
}

/// The parser of the GLM preset.
pub open spec fn glm_parser_view() -> ParserView {
    parser_of(Seq::empty(), Seq::empty(), None, PERCENT_VALUE_FORMAT@, Seq::empty())
}

/// Headers sent to the ChatGPT backend.
pub open spec fn chatgpt_headers_view() -> Seq<(Seq<char>, Seq<char>)> {
    seq![("user-agent"@, "codex-cli"@)]
}

/// Headers sent to AI-MEMBER.
pub open spec fn ai_member_headers_view() -> Seq<(Seq<char>, Seq<char>)> {
    seq![("accept-language"@, "zh"@), ("x-user-ui-request"@, "1"@)]
}

/// The built-in ChatGPT source.
pub open spec fn chatgpt_source_view() -> SourceView {
    SourceView {
        id: "chatgpt"@,
        kind: DataSourceKind::Http,
        enabled: true,
        label: "ChatGPT"@,
        base_url: DEFAULT_CHATGPT_BASE_URL@,
        endpoint: DEFAULT_CHATGPT_USAGE_ENDPOINT@,
        api_key: Seq::empty(),
        auth_mode: DEFAULT_AUTH_MODE@,
        headers: chatgpt_headers_view(),
        parser: default_parser_view(),
        transform_script: CHATGPT_TRANSFORM_SCRIPT@,
        low_balance_threshold: Some(thirty()),
        timeout_seconds: 8,
    }
}

/// The AI-MEMBER source built from legacy AI-MEMBER settings.
pub open spec fn ai_member_source_view(a: AiMemberView) -> SourceView {
    SourceView {
        id: "ai-member"@,
        kind: DataSourceKind::Http,
        enabled: a.enabled,
        label: a.label,
        base_url: a.base_url,
        endpoint: a.balance_endpoint,
        api_key: a.api_key,
        auth_mode: DEFAULT_AUTH_MODE@,
        headers: ai_member_headers_view(),
        parser: parser_of(
            ai_member_value_paths(a.balance_divisor),
            Seq::empty(),
            Some("USD"@),
            DEFAULT_VALUE_FORMAT@,
            Seq::empty(),
        ),
        transform_script: AI_MEMBER_TRANSFORM_SCRIPT@,
        low_balance_threshold: a.low_balance_threshold,
        timeout_seconds: 8,
    }
}

/// The Kimi Code source built from legacy Kimi settings.
pub open spec fn kimi_source_view(k: KimiView) -> SourceView {
    SourceView {
        id: "kimi"@,
        kind: DataSourceKind::Http,
        enabled: k.enabled,
        label: k.label,
        base_url: k.base_url,
        endpoint: k.usage_endpoint,
        api_key: k.api_key,
        auth_mode: DEFAULT_AUTH_MODE@,
        headers: Seq::empty(),
        parser: kimi_parser_view(),
        transform_script: KIMI_TRANSFORM_SCRIPT@,
        low_balance_threshold: k.low_balance_threshold,
        timeout_seconds: 8,
    }
}

/// The DeepSeek source built from legacy DeepSeek settings.
pub open spec fn deepseek_source_view(d: DeepSeekView) -> SourceView {
    SourceView {
        id: "deepseek"@,
        kind: DataSourceKind::Http,
        enabled: d.enabled,
        label: d.label,
        base_url: d.base_url,
        endpoint: d.balance_endpoint,
        api_key: d.api_key,
        auth_mode: DEFAULT_AUTH_MODE@,
        headers: Seq::empty(),
        parser: deepseek_parser_view(),
        transform_script: DEEPSEEK_TRANSFORM_SCRIPT@,
        low_balance_threshold: d.low_balance_threshold,
        timeout_seconds: 8,
    }
}

/// The built-in SiliconFlow source.
pub open spec fn siliconflow_source_view() -> SourceView {
    SourceView {
        id: "siliconflow"@,
        kind: DataSourceKind::Http,
        enabled: true,
        label: "SiliconFlow"@,
        base_url: DEFAULT_SILICONFLOW_BASE_URL@,
        endpoint: DEFAULT_SILICONFLOW_USER_INFO_ENDPOINT@,
        api_key: Seq::empty(),
        auth_mode: DEFAULT_AUTH_MODE@,
        headers: Seq::empty(),
        parser: siliconflow_parser_view(),
        transform_script: SILICONFLOW_TRANSFORM_SCRIPT@,
        low_balance_threshold: Some(ten()),
        timeout_seconds: 8,
    }
}

/// The built-in GLM source.
pub open spec fn glm_source_view() -> SourceView {
    SourceView {
        id: "glm"@,
        kind: DataSourceKind::Http,
        enabled: true,
        label: "GLM"@,
        base_url: DEFAULT_GLM_QUOTA_BASE_URL@,
        endpoint: DEFAULT_GLM_QUOTA_ENDPOINT@,
        api_key: Seq::empty(),
        auth_mode: RAW_AUTH_MODE@,
        headers: Seq::empty(),
        parser: glm_parser_view(),
        transform_script: GLM_TRANSFORM_SCRIPT@,
        low_balance_threshold: Some(ten()),
        timeout_seconds: 8,
    }
}

/// Default legacy AI-MEMBER settings.
pub open spec fn default_ai_member_view() -> AiMemberView {
    AiMemberView {
        enabled: false,
        label: DEFAULT_AI_MEMBER_LABEL@,
        base_url: DEFAULT_AI_MEMBER_BASE_URL@,
        api_key: Seq::empty(),
        balance_endpoint: DEFAULT_AI_MEMBER_BALANCE_ENDPOINT@,
        low_balance_threshold: Some(ten()),
        balance_divisor: default_balance_divisor(),
    }
}

/// Default legacy Kimi settings.
pub open spec fn default_kimi_view() -> KimiView {
    KimiView {
        enabled: false,
        label: DEFAULT_KIMI_LABEL@,
        base_url: DEFAULT_KIMI_BASE_URL@,
        api_key: Seq::empty(),
        usage_endpoint: DEFAULT_KIMI_BALANCE_ENDPOINT@,
        low_balance_threshold: Some(thirty()),
    }
}

/// Default legacy DeepSeek settings.
pub open spec fn default_deepseek_view() -> DeepSeekView {
    DeepSeekView {
        enabled: false,
        label: DEFAULT_DEEPSEEK_LABEL@,
        base_url: DEFAULT_DEEPSEEK_BASE_URL@,
        api_key: Seq::empty(),
        balance_endpoint: DEFAULT_DEEPSEEK_BALANCE_ENDPOINT@,
        low_balance_threshold: Some(ten()),
    }
}

/// The sources built from the legacy per-provider settings, in order:
/// ChatGPT, AI-MEMBER, Kimi Code, DeepSeek, SiliconFlow, GLM.
#[verifier::opaque]
pub open spec fn preset_sources(a: AiMemberView, k: KimiView, d: DeepSeekView) -> Seq<SourceView> {
    seq![
        chatgpt_source_view(),
        ai_member_source_view(a),
        kimi_source_view(k),
        deepseek_source_view(d),
        siliconflow_source_view(),
        glm_source_view(),
    ]
}

/// The sources of fresh settings.
pub open spec fn default_sources_view() -> Seq<SourceView> {
    preset_sources(default_ai_member_view(), default_kimi_view(), default_deepseek_view())
}

/// A header with the given name and value.
pub fn header(name: &str, value: &str) -> (r: HeaderSetting)
    ensures
        r.deep_view() == (name@, value@),
{
    HeaderSetting { name: owned(name), value: owned(value) }
}

/// The headers sent to the ChatGPT backend.
pub fn chatgpt_headers() -> (r: Vec<HeaderSetting>)
    ensures
        r.deep_view() == chatgpt_headers_view(),
{
    let mut v: Vec<HeaderSetting> = Vec::new();
    v.push(header("user-agent", "codex-cli"));
    assert(v.deep_view() =~= chatgpt_headers_view());
    v
}

fn ai_member_headers() -> (r: Vec<HeaderSetting>)
    ensures
        r.deep_view() == ai_member_headers_view(),
{
    let mut v: Vec<HeaderSetting> = Vec::new();
    v.push(header("accept-language", "zh"));
    v.push(header("x-user-ui-request", "1"));
    assert(v.deep_view() =~= ai_member_headers_view());
    v
}

fn empty_parser(
    value_paths: Vec<ValuePathSetting>,
    currency_paths: Vec<String>,
    currency_default: Option<String>,
    value_format: String,
    windows: Vec<HttpWindowSettings>,
) -> (r: HttpParserSettings)
    ensures
        r.deep_view() == parser_of(
            value_paths.deep_view(),
            currency_paths.deep_view(),
            currency_default.deep_view(),
            value_format@,
            windows.deep_view(),
        ),
{
    let r = HttpParserSettings {
        value_paths,
        currency_paths,
        currency_default,
        reset_paths: Vec::new(),
        value_format,
        windows,
        array_windows: Vec::new(),
    };
    assert(r.reset_paths.deep_view() =~= Seq::<Seq<char>>::empty());
    assert(r.array_windows.deep_view() =~= Seq::<ArrayWindowView>::empty());
    r
}

impl HttpParserSettings {
    /// Parser settings that read nothing themselves: money in USD.
    pub fn default() -> (r: HttpParserSettings)
        ensures
            r.deep_view() == default_parser_view(),
    {
        empty_parser(no_paths(), no_strings(), Some(owned("USD")), default_value_format(), no_windows())
    }
}

fn no_paths() -> (r: Vec<ValuePathSetting>)
    ensures
        r.deep_view() == Seq::<(Seq<char>, FloatBits)>::empty(),
{
    let r: Vec<ValuePathSetting> = Vec::new();
    assert(r.deep_view() =~= Seq::<(Seq<char>, FloatBits)>::empty());
    r
}

fn no_strings() -> (r: Vec<String>)
    ensures
        r.deep_view() == Seq::<Seq<char>>::empty(),
{
    let r: Vec<String> = Vec::new();
    assert(r.deep_view() =~= Seq::<Seq<char>>::empty());
    r
}

fn no_windows() -> (r: Vec<HttpWindowSettings>)
    ensures
        r.deep_view() == Seq::<WindowView>::empty(),
{
    let r: Vec<HttpWindowSettings> = Vec::new();
    assert(r.deep_view() =~= Seq::<WindowView>::empty());
    r
}

fn no_headers() -> (r: Vec<HeaderSetting>)
    ensures
        r.deep_view() == Seq::<(Seq<char>, Seq<char>)>::empty(),
{
    let r: Vec<HeaderSetting> = Vec::new();
    assert(r.deep_view() =~= Seq::<(Seq<char>, Seq<char>)>::empty());
    r
}

/// The AI-MEMBER preset source built from legacy AI-MEMBER settings.
pub fn ai_member_source(settings: AiMemberSettings) -> (r: DataSourceSettings)
    ensures
        r.deep_view() == ai_member_source_view(settings.deep_view()),
{
    let mut value_paths: Vec<ValuePathSetting> = no_paths();
    push_value_paths(&mut value_paths, &amount_path_list(), FloatBits { bits: 0x3ff0000000000000 });
    push_value_paths(&mut value_paths, &quota_path_list(), settings.balance_divisor);
    let ghost before = value_paths.deep_view();
    value_paths.push(ValuePathSetting { path: owned("cents"), divisor: FloatBits { bits: 0x4059000000000000 } });
    assert(value_paths.deep_view() =~= before.push(("cents"@, hundred())));
    assert(value_paths.deep_view() =~= ai_member_value_paths(settings.balance_divisor));
    DataSourceSettings {
        id: owned("ai-member"),
        kind: DataSourceKind::Http,
        enabled: settings.enabled,
        label: settings.label,
        base_url: settings.base_url,
        endpoint: settings.balance_endpoint,
        api_key: settings.api_key,
        auth_mode: default_auth_mode(),
        headers: ai_member_headers(),
        parser: empty_parser(value_paths, no_strings(), Some(owned("USD")), owned("money"), no_windows()),
        transform_script: ai_member_transform_script(),
        low_balance_threshold: settings.low_balance_threshold,
        timeout_seconds: default_timeout_seconds(),
    }
}

fn kimi_parser() -> (r: HttpParserSettings)
    ensures
        r.deep_view() == kimi_parser_view(),
{
    let window = HttpWindowSettings {
        id: owned("weekly"),
        label: owned("周额度"),
        root_path: owned("usage"),
        limit_path: owned("limit"),
        remaining_path: owned("remaining"),
        used_path: Some(owned("used")),
        reset_path: Some(owned("resetTime")),
        limit_label: Some(owned("Kimi Code 周额度")),
        window_key: Some(owned("weekly")),
    };
    let mut windows: Vec<HttpWindowSettings> = Vec::new();
    windows.push(window);
    assert(windows.deep_view() =~= seq![kimi_weekly_window()]);
    empty_parser(no_paths(), no_strings(), None, owned("percent"), windows)
}

/// The Kimi Code preset source built from legacy Kimi settings.
pub fn kimi_source(settings: KimiSettings) -> (r: DataSourceSettings)
    ensures
        r.deep_view() == kimi_source_view(settings.deep_view()),
{
    DataSourceSettings {
        id: owned("kimi"),
        kind: DataSourceKind::Http,
        enabled: settings.enabled,
        label: settings.label,
        base_url: settings.base_url,
        endpoint: settings.usage_endpoint,
        api_key: settings.api_key,
        auth_mode: default_auth_mode(),
        headers: no_headers(),
        parser: kimi_parser(),
        transform_script: kimi_transform_script(),
        low_balance_threshold: settings.low_balance_threshold,
        timeout_seconds: default_timeout_seconds(),
    }
}

/// The DeepSeek preset source built from legacy DeepSeek settings.
pub fn deepseek_source(settings: DeepSeekSettings) -> (r: DataSourceSettings)
    ensures
        r.deep_view() == deepseek_source_view(settings.deep_view()),
{
    let mut value_paths: Vec<ValuePathSetting> = Vec::new();
    value_paths.push(ValuePathSetting {
        path: owned("balance_infos[currency=CNY].total_balance"),
        divisor: FloatBits { bits: 0x3ff0000000000000 },
    });
    value_paths.push(ValuePathSetting {
        path: owned("balance_infos[0].total_balance"),
        divisor: FloatBits { bits: 0x3ff0000000000000 },
    });
    let mut currency_paths: Vec<String> = Vec::new();
    currency_paths.push(owned("balance_infos[currency=CNY].currency"));
    currency_paths.push(owned("balance_infos[0].currency"));
    assert(value_paths.deep_view() =~= deepseek_parser_view().value_paths);
    assert(currency_paths.deep_view() =~= deepseek_parser_view().currency_paths);
    DataSourceSettings {
        id: owned("deepseek"),
        kind: DataSourceKind::Http,
        enabled: settings.enabled,
        label: settings.label,
        base_url: settings.base_url,
        endpoint: settings.balance_endpoint,
        api_key: settings.api_key,
        auth_mode: default_auth_mode(),
        headers: no_headers(),
        parser: empty_parser(value_paths, currency_paths, Some(owned("CNY")), owned("money"), no_windows()),
        transform_script: deepseek_transform_script(),
        low_balance_threshold: settings.low_balance_threshold,
        timeout_seconds: default_timeout_seconds(),
    }
}

/// The built-in SiliconFlow source.
pub fn siliconflow_source() -> (r: DataSourceSettings)
    ensures
        r.deep_view() == siliconflow_source_view(),
{
    let mut value_paths: Vec<ValuePathSetting> = Vec::new();
    value_paths.push(ValuePathSetting { path: owned("data.balance"), divisor: FloatBits { bits: 0x3ff0000000000000 } });
    value_paths.push(ValuePathSetting { path: owned("balance"), divisor: FloatBits { bits: 0x3ff0000000000000 } });
    let mut currency_paths: Vec<String> = Vec::new();
    currency_paths.push(owned("data.currency"));
    currency_paths.push(owned("currency"));
    assert(value_paths.deep_view() =~= siliconflow_parser_view().value_paths);
    assert(currency_paths.deep_view() =~= siliconflow_parser_view().currency_paths);
    DataSourceSettings {
        id: owned("siliconflow"),
        kind: DataSourceKind::Http,
        enabled: true,
        label: owned("SiliconFlow"),
        base_url: default_siliconflow_base_url(),
        endpoint: default_siliconflow_user_info_endpoint(),
        api_key: String::new(),
        auth_mode: default_auth_mode(),
        headers: no_headers(),
        parser: empty_parser(value_paths, currency_paths, Some(owned("CNY")), owned("money"), no_windows()),
        transform_script: siliconflow_transform_script(),
        low_balance_threshold: Some(FloatBits { bits: 0x4024000000000000 }),
        timeout_seconds: default_timeout_seconds(),
    }
}

/// The built-in GLM source.
pub fn glm_source() -> (r: DataSourceSettings)
    ensures
        r.deep_view() == glm_source_view(),
{
    DataSourceSettings {
        id: owned("glm"),
        kind: DataSourceKind::Http,
        enabled: true,
        label: owned("GLM"),
        base_url: default_glm_quota_base_url(),
        endpoint: default_glm_quota_endpoint(),
        api_key: String::new(),
        auth_mode: owned(RAW_AUTH_MODE),
        headers: no_headers(),
        parser: empty_parser(no_paths(), no_strings(), None, owned("percent"), no_windows()),
        transform_script: glm_transform_script(),
        low_balance_threshold: Some(FloatBits { bits: 0x4024000000000000 }),
        timeout_seconds: default_timeout_seconds(),
    }
}

/// The built-in ChatGPT source.
pub fn chatgpt_source() -> (r: DataSourceSettings)
    ensures
        r.deep_view() == chatgpt_source_view(),
{
    DataSourceSettings {
        id: owned("chatgpt"),
        kind: DataSourceKind::Http,
        enabled: true,
        label: owned("ChatGPT"),
        base_url: default_chatgpt_base_url(),
        endpoint: default_chatgpt_usage_endpoint(),
        api_key: String::new(),
        auth_mode: default_auth_mode(),
        headers: chatgpt_headers(),
        parser: HttpParserSettings::default(),
        transform_script: chatgpt_transform_script(),
        low_balance_threshold: Some(FloatBits { bits: 0x403e000000000000 }),
        timeout_seconds: default_timeout_seconds(),
    }
}

/// The sources built from legacy per-provider settings.
pub fn preset_source_list(a: AiMemberSettings, k: KimiSettings, d: DeepSeekSettings) -> (r: Vec<
    DataSourceSettings,
>)
    ensures
        r.deep_view() == preset_sources(a.deep_view(), k.deep_view(), d.deep_view()),
{
    let mut v: Vec<DataSourceSettings> = Vec::new();
    v.push(chatgpt_source());
    v.push(ai_member_source(a));
    v.push(kimi_source(k));
    v.push(deepseek_source(d));
    v.push(siliconflow_source());
    v.push(glm_source());
    reveal(preset_sources);
    assert(v.deep_view() =~= preset_sources(a.deep_view(), k.deep_view(), d.deep_view()));
    v
}

impl AiMemberSettings {
    /// Default legacy AI-MEMBER settings.
    pub fn default() -> (r: AiMemberSettings)
        ensures
            r.deep_view() == default_ai_member_view(),
    {
        AiMemberSettings {
            enabled: false,
            label: default_ai_member_label(),
            base_url: default_ai_member_base_url(),
            api_key: String::new(),
            balance_endpoint: default_ai_member_balance_endpoint(),
            low_balance_threshold: Some(FloatBits { bits: 0x4024000000000000 }),
            balance_divisor: default_ai_member_balance_divisor(),
        }
    }

    /// A copy of these settings.
    pub fn copy(&self) -> (r: AiMemberSettings)
        ensures
            r.deep_view() == self.deep_view(),
    {
        AiMemberSettings {
            enabled: self.enabled,
            label: self.label.clone(),
            base_url: self.base_url.clone(),
            api_key: self.api_key.clone(),
            balance_endpoint: self.balance_endpoint.clone(),
            low_balance_threshold: self.low_balance_threshold,
            balance_divisor: self.balance_divisor,
        }
    }
}

impl KimiSettings {
    /// Default legacy Kimi settings.
    pub fn default() -> (r: KimiSettings)
        ensures
            r.deep_view() == default_kimi_view(),
    {
        KimiSettings {
            enabled: false,
            label: default_kimi_label(),
            base_url: default_kimi_base_url(),
            api_key: String::new(),
            usage_endpoint: default_kimi_balance_endpoint(),
            low_balance_threshold: Some(FloatBits { bits: 0x403e000000000000 }),
        }
    }

    /// A copy of these settings.
    pub fn copy(&self) -> (r: KimiSettings)
        ensures
            r.deep_view() == self.deep_view(),
    {
        KimiSettings {
            enabled: self.enabled,
            label: self.label.clone(),
            base_url: self.base_url.clone(),
            api_key: self.api_key.clone(),
            usage_endpoint: self.usage_endpoint.clone(),
            low_balance_threshold: self.low_balance_threshold,
        }
    }
}

impl DeepSeekSettings {
    /// Default legacy DeepSeek settings.
    pub fn default() -> (r: DeepSeekSettings)
        ensures
            r.deep_view() == default_deepseek_view(),
    {
        DeepSeekSettings {
            enabled: false,
            label: default_deepseek_label(),
            base_url: default_deepseek_base_url(),
            api_key: String::new(),
            balance_endpoint: default_deepseek_balance_endpoint(),
            low_balance_threshold: Some(FloatBits { bits: 0x4024000000000000 }),
        }
    }

    /// A copy of these settings.
    pub fn copy(&self) -> (r: DeepSeekSettings)
        ensures
            r.deep_view() == self.deep_view(),
    {
        DeepSeekSettings {
            enabled: self.enabled,
            label: self.label.clone(),
            base_url: self.base_url.clone(),
            api_key: self.api_key.clone(),
            balance_endpoint: self.balance_endpoint.clone(),
            low_balance_threshold: self.low_balance_threshold,
        }
    }
}

/// The sources of fresh settings.
pub fn default_sources() -> (r: Vec<DataSourceSettings>)
    ensures
        r.deep_view() == default_sources_view(),
{
    preset_source_list(AiMemberSettings::default(), KimiSettings::default(), DeepSeekSettings::default())
}

// ------------------------------------------------------------------------
// Preset recognition and default transform scripts
// ------------------------------------------------------------------------

/// Whether a source is (a copy of) the Kimi Code preset.
pub open spec fn is_kimi_preset(s: SourceView) -> bool {
    let id = lowercase(s.id);
    ||| id == "kimi"@
    ||| starts_with(id, "kimi-"@)
    ||| starts_with(lowercase(s.label), "kimi code"@)
    ||| lowercase(s.base_url) == DEFAULT_KIMI_BASE_URL@
    ||| lowercase(s.endpoint) == DEFAULT_KIMI_BALANCE_ENDPOINT@
}

/// Whether a source is (a copy of) the GLM preset.
pub open spec fn is_glm_preset(s: SourceView) -> bool {
    let id = lowercase(s.id);
    let label = lowercase(s.label);
    ||| id == "glm"@
    ||| starts_with(id, "glm-"@)
    ||| starts_with(label, "glm"@)
    ||| starts_with(label, "智谱"@)
    ||| lowercase(s.base_url) == DEFAULT_GLM_QUOTA_BASE_URL@
}

/// Whether a script is the transform that older versions used for Kimi.
pub open spec fn is_legacy_kimi_script(script: Seq<char>) -> bool {
    &&& contains(script, "json.limits"@)
    &&& contains(script, "No Kimi usage windows found"@)
    &&& contains(script, "toWindow"@)
}

/// The built-in transform script that fits a source, if one does: the
/// first preset, in the order AI-MEMBER, ChatGPT, DeepSeek, SiliconFlow,
/// GLM, Kimi Code, custom, that the source's id, label or base URL names.
pub open spec fn default_script_for(s: SourceView) -> Option<Seq<char>> {
    let id = lowercase(s.id);
    let label = lowercase(s.label);
    let base = lowercase(s.base_url);
    if id == "ai-member"@ || starts_with(id, "ai-member-"@) || starts_with(label, "ai-member"@)
        || base == DEFAULT_AI_MEMBER_BASE_URL@ {
        Some(AI_MEMBER_TRANSFORM_SCRIPT@)
    } else if id == "chatgpt"@ || starts_with(id, "chatgpt-official"@) || (starts_with(
        label,
        "chatgpt"@,
    ) && base == DEFAULT_CHATGPT_BASE_URL@) {
        Some(CHATGPT_TRANSFORM_SCRIPT@)
    } else if id == "deepseek"@ || starts_with(id, "deepseek-"@) || starts_with(label, "deepseek"@)
        || base == DEFAULT_DEEPSEEK_BASE_URL@ {
        Some(DEEPSEEK_TRANSFORM_SCRIPT@)
    } else if id == "siliconflow"@ || starts_with(id, "siliconflow-"@) || starts_with(
        label,
        "siliconflow"@,
    ) || starts_with(label, "硅基流动"@) || base == DEFAULT_SILICONFLOW_BASE_URL@ {
        Some(SILICONFLOW_TRANSFORM_SCRIPT@)
    } else if is_glm_preset(s) {
        Some(GLM_TRANSFORM_SCRIPT@)
    } else if is_kimi_preset(s) {
        Some(KIMI_TRANSFORM_SCRIPT@)
    } else if id == "custom-source"@ || starts_with(id, "custom-source-"@) || starts_with(
        label,
        "custom source"@,
    ) {
        Some(CUSTOM_TRANSFORM_SCRIPT@)
    } else {
        None
    }
}

/// Whether a source is (a copy of) the Kimi Code preset.
pub fn is_kimi_preset_source(source: &DataSourceSettings) -> (r: bool)
    ensures
        r == is_kimi_preset(source.deep_view()),
{
    let id = lowercase_chars(source.id.as_str());
    let label = lowercase_chars(source.label.as_str());
    let base = lowercase_chars(source.base_url.as_str());
    let endpoint = lowercase_chars(source.endpoint.as_str());
    chars_are(&id, "kimi") || chars_begin_with(&id, "kimi-") || chars_begin_with(&label, "kimi code")
        || chars_are(&base, DEFAULT_KIMI_BASE_URL) || chars_are(&endpoint, DEFAULT_KIMI_BALANCE_ENDPOINT)
}

/// Whether a source is (a copy of) the GLM preset.
pub fn is_glm_preset_source(source: &DataSourceSettings) -> (r: bool)
    ensures
        r == is_glm_preset(source.deep_view()),
{
    let id = lowercase_chars(source.id.as_str());
    let label = lowercase_chars(source.label.as_str());
    let base = lowercase_chars(source.base_url.as_str());
    chars_are(&id, "glm") || chars_begin_with(&id, "glm-") || chars_begin_with(&label, "glm")
        || chars_begin_with(&label, "智谱") || chars_are(&base, DEFAULT_GLM_QUOTA_BASE_URL)
}

/// Whether a script is the transform that older versions used for Kimi.
pub fn is_legacy_kimi_transform_script(script: &str) -> (r: bool)
    ensures
        r == is_legacy_kimi_script(script@),
{
    str_contains(script, "json.limits") && str_contains(script, "No Kimi usage windows found")
        && str_contains(script, "toWindow")
}

/// The built-in transform script that fits a source, if one does.
pub fn default_transform_script_for_source(source: &DataSourceSettings) -> (r: Option<String>)
    ensures
        r.deep_view() == default_script_for(source.deep_view()),
{
    let id = lowercase_chars(source.id.as_str());
    let label = lowercase_chars(source.label.as_str());
    let base = lowercase_chars(source.base_url.as_str());
    if chars_are(&id, "ai-member") || chars_begin_with(&id, "ai-member-") || chars_begin_with(
        &label,
        "ai-member",
    ) || chars_are(&base, DEFAULT_AI_MEMBER_BASE_URL) {
        return Some(ai_member_transform_script());
    }
    if chars_are(&id, "chatgpt") || chars_begin_with(&id, "chatgpt-official") || (chars_begin_with(
        &label,
        "chatgpt",
    ) && chars_are(&base, DEFAULT_CHATGPT_BASE_URL)) {
        return Some(chatgpt_transform_script());
    }
    if chars_are(&id, "deepseek") || chars_begin_with(&id, "deepseek-") || chars_begin_with(
        &label,
        "deepseek",
    ) || chars_are(&base, DEFAULT_DEEPSEEK_BASE_URL) {
        return Some(deepseek_transform_script());
    }
    if chars_are(&id, "siliconflow") || chars_begin_with(&id, "siliconflow-") || chars_begin_with(
        &label,
        "siliconflow",
    ) || chars_begin_with(&label, "硅基流动") || chars_are(&base, DEFAULT_SILICONFLOW_BASE_URL) {
        return Some(siliconflow_transform_script());
    }
    if is_glm_preset_source(source) {
        return Some(glm_transform_script());
    }
    if is_kimi_preset_source(source) {
        return Some(kimi_transform_script());
    }
    if chars_are(&id, "custom-source") || chars_begin_with(&id, "custom-source-") || chars_begin_with(
        &label,
        "custom source",
    ) {
        return Some(custom_transform_script());
    }
    None
}

// ------------------------------------------------------------------------
// Migration
// ------------------------------------------------------------------------

/// One source brought up to date:
/// a ChatGPT-kind `chatgpt` source becomes the HTTP ChatGPT preset; an HTTP
/// `chatgpt` source on the legacy endpoint moves to the usage endpoint; a
/// Kimi-kind source becomes HTTP with the Kimi parser and script; GLM
/// presets authenticate raw; every source is enabled; and an HTTP source
/// with a blank script, or a Kimi preset with the legacy Kimi script, gets
/// the built-in script that fits it, if one does.
#[verifier::opaque]
pub open spec fn migrate_source_view(s0: SourceView) -> SourceView {
    let s1 = if s0.id == "chatgpt"@ && s0.kind == DataSourceKind::Chatgpt {
        SourceView {
            kind: DataSourceKind::Http,
            base_url: DEFAULT_CHATGPT_BASE_URL@,
            endpoint: DEFAULT_CHATGPT_USAGE_ENDPOINT@,
            headers: chatgpt_headers_view(),
            transform_script: CHATGPT_TRANSFORM_SCRIPT@,
            ..s0
        }
    } else {
        s0
    };
    let s2 = if s1.kind == DataSourceKind::Http && s1.id == "chatgpt"@ && strip_end_char(
        s1.base_url,
        '/',
    ) == DEFAULT_CHATGPT_BASE_URL@ && s1.endpoint == LEGACY_CHATGPT_ENDPOINT@ {
        SourceView {
            endpoint: DEFAULT_CHATGPT_USAGE_ENDPOINT@,
            headers: chatgpt_headers_view(),
            transform_script: CHATGPT_TRANSFORM_SCRIPT@,
            ..s1
        }
    } else {
        s1
    };
    let s3 = if s2.kind == DataSourceKind::Kimi {
        SourceView {
            kind: DataSourceKind::Http,
            parser: kimi_parser_view(),
            transform_script: KIMI_TRANSFORM_SCRIPT@,
            ..s2
        }
    } else {
        s2
    };
    let s4 = if is_glm_preset(s3) {
        SourceView { auth_mode: RAW_AUTH_MODE@, ..s3 }
    } else {
        s3
    };
    let s5 = SourceView { enabled: true, ..s4 };
    if wants_default_script(s5) && default_script_for(s5) is Some {
        SourceView { transform_script: default_script_for(s5)->0, ..s5 }
    } else {
        s5
    }
}

/// Whether an HTTP source should take the built-in script that fits it.
pub open spec fn wants_default_script(s: SourceView) -> bool {
    &&& s.kind == DataSourceKind::Http
    &&& (trim(s.transform_script).len() == 0 || (is_kimi_preset(s) && is_legacy_kimi_script(
        s.transform_script,
    )))
}

/// Whether some source has the id `id`.
pub open spec fn has_source(sources: Seq<SourceView>, id: Seq<char>) -> bool {
    exists|i: int| 0 <= i < sources.len() && #[trigger] sources[i].id == id
}

/// `sources` without those whose id is `id`.
pub open spec fn without_id(sources: Seq<SourceView>, id: Seq<char>) -> Seq<SourceView>
    decreases sources.len(),
{
    if sources.len() == 0 {
        Seq::empty()
    } else {
        let rest = without_id(sources.drop_last(), id);
        if sources.last().id == id {
            rest
        } else {
            rest.push(sources.last())
        }
    }
}

/// `list`, with `extra` appended when no source has its id.
pub open spec fn ensure_source(list: Seq<SourceView>, extra: SourceView) -> Seq<SourceView> {
    if has_source(list, extra.id) {
        list
    } else {
        list.push(extra)
    }
}

/// Each source migrated, in order, without those with id `chatgpt-local`.
pub open spec fn migrate_list(list: Seq<SourceView>) -> Seq<SourceView> {
    without_id(list.map_values(|x: SourceView| migrate_source_view(x)), "chatgpt-local"@)
}

/// The AI-MEMBER endpoints of older versions.
pub open spec fn is_old_ai_member_endpoint(e: Seq<char>) -> bool {
    e == "/api/usage/token/"@ || e == "/api/usage/token"@ || e == "/v1/balance"@ || e
        == "/api/v1/balance"@
}

/// Taskbar source ids implied by the legacy per-provider switches.
pub open spec fn taskbar_ids_from(t: TaskbarSources) -> Seq<Seq<char>> {
    (if t.chatgpt { seq!["chatgpt"@] } else { Seq::empty() }) + (if t.ai_member {
        seq!["ai-member"@]
    } else {
        Seq::empty()
    }) + (if t.kimi { seq!["kimi"@] } else { Seq::empty() }) + (if t.deepseek {
        seq!["deepseek"@]
    } else {
        Seq::empty()
    })
}

/// The source list after migration: presets built from the legacy
/// settings when the list is empty, SiliconFlow and GLM added when
/// missing, each source migrated, and `chatgpt-local` removed.
pub open spec fn migrated_sources(s: SettingsView, ai_member: AiMemberView) -> Seq<SourceView> {
    let sources0 = if s.sources.len() == 0 {
        preset_sources(ai_member, s.kimi, s.deepseek)
    } else {
        s.sources
    };
    migrate_list(ensure_source(ensure_source(sources0, siliconflow_source_view()), glm_source_view()))
}

/// Settings brought up to date (see `migrate_source_view` for each source).
pub open spec fn migrate_view(s: SettingsView) -> SettingsView {
    let language = if s.language == "zh"@ {
        s.language
    } else {
        DEFAULT_LANGUAGE@
    };
    let ai_member = if is_old_ai_member_endpoint(s.ai_member.balance_endpoint) {
        AiMemberView { balance_endpoint: DEFAULT_AI_MEMBER_BALANCE_ENDPOINT@, ..s.ai_member }
    } else {
        s.ai_member
    };
    let sources = migrated_sources(s, ai_member);
    let ids = if s.taskbar_source_ids.len() == 0 {
        taskbar_ids_from(s.taskbar_sources)
    } else {
        s.taskbar_source_ids
    };
    let selected = if has_source(sources, s.selected_meter_source) {
        s.selected_meter_source
    } else if sources.len() > 0 {
        sources[0].id
    } else {
        "chatgpt"@
    };
    SettingsView {
        language,
        ai_member,
        sources,
        taskbar_source_ids: ids,
        selected_meter_source: selected,
        ..s
    }
}

/// One source brought up to date (see `migrate_source_view`).
pub fn migrate_source(source: DataSourceSettings) -> (r: DataSourceSettings)
    ensures
        r.deep_view() == migrate_source_view(source.deep_view()),
{
    reveal(migrate_source_view);
    let mut source = source;
    if chars_are(&chars_of(source.id.as_str()), "chatgpt") && source.kind == DataSourceKind::Chatgpt {
        source.kind = DataSourceKind::Http;
        source.base_url = default_chatgpt_base_url();
        source.endpoint = default_chatgpt_usage_endpoint();
        source.headers = chatgpt_headers();
        source.transform_script = chatgpt_transform_script();
    }
    if source.kind == DataSourceKind::Http && chars_are(&chars_of(source.id.as_str()), "chatgpt")
        && chars_are(&strip_end_chars(&chars_of(source.base_url.as_str()), '/'), DEFAULT_CHATGPT_BASE_URL)
        && chars_are(&chars_of(source.endpoint.as_str()), LEGACY_CHATGPT_ENDPOINT) {
        source.endpoint = default_chatgpt_usage_endpoint();
        source.headers = chatgpt_headers();
        source.transform_script = chatgpt_transform_script();
    }
    if source.kind == DataSourceKind::Kimi {
        source.kind = DataSourceKind::Http;
        source.parser = kimi_parser();
        source.transform_script = kimi_transform_script();
    }
    if is_glm_preset_source(&source) {
        source.auth_mode = owned(RAW_AUTH_MODE);
    }
    source.enabled = true;
    let blank = trim_chars(&chars_of(source.transform_script.as_str())).len() == 0;
    let should_use_default = blank || (is_kimi_preset_source(&source)
        && is_legacy_kimi_transform_script(source.transform_script.as_str()));
    if source.kind == DataSourceKind::Http && should_use_default {
        if let Some(script) = default_transform_script_for_source(&source) {
            source.transform_script = script;
        }
    }
    source
}

/// Whether some source has the id `id`.
pub fn has_source_id(sources: &Vec<DataSourceSettings>, id: &str) -> (r: bool)
    ensures
        r == has_source(sources.deep_view(), id@),
{
    let mut i: usize = 0;
    while i < sources.len()
        invariant
            i <= sources@.len(),
            forall|k: int| 0 <= k < i ==> sources.deep_view()[k].id != id@,
        decreases sources@.len() - i,
    {
        if chars_are(&chars_of(sources[i].id.as_str()), id) {
            assert(sources.deep_view()[i as int].id == id@);
            return true;
        }
        i = i + 1;
    }
    false
}

fn old_ai_member_endpoint(e: &str) -> (r: bool)
    ensures
        r == is_old_ai_member_endpoint(e@),
{
    let c = chars_of(e);
    chars_are(&c, "/api/usage/token/") || chars_are(&c, "/api/usage/token") || chars_are(
        &c,
        "/v1/balance",
    ) || chars_are(&c, "/api/v1/balance")
}

/// Each source migrated, in order, without those with id `chatgpt-local`.
pub fn migrate_source_list(sources: Vec<DataSourceSettings>) -> (r: Vec<DataSourceSettings>)
    ensures
        r.deep_view() == migrate_list(sources.deep_view()),
{
    let ghost all = sources.deep_view();
    let ghost mapped = all.map_values(|x: SourceView| migrate_source_view(x));
    let mut pending = sources;
    let mut kept: Vec<DataSourceSettings> = Vec::new();
    let ghost mut k: int = 0;
    assert(kept.deep_view() =~= without_id(mapped.take(0), "chatgpt-local"@));
    assert(pending.deep_view() =~= all.skip(0));
    while pending.len() > 0
        invariant
            0 <= k <= all.len(),
            mapped == all.map_values(|x: SourceView| migrate_source_view(x)),
            pending.deep_view() == all.skip(k),
            kept.deep_view() == without_id(mapped.take(k), "chatgpt-local"@),
        decreases pending@.len(),
    {
        let ghost pend = pending.deep_view();
        let ghost pend_raw = pending@;
        assert(pend.len() == all.len() - k);
        let next = pending.remove(0);
        assert(next.deep_view() == pend[0]);
        assert(pend[0] == all[k]);
        assert forall|j: int| 0 <= j < pending.deep_view().len() implies #[trigger] pending.deep_view()[j]
            == all.skip(k + 1)[j] by {
            assert(pending@[j] == pend_raw[j + 1]);
            assert(pend[j + 1] == all[k + 1 + j]);
        }
        assert(pending.deep_view() =~= all.skip(k + 1));
        let m = migrate_source(next);
        assert(mapped.take(k + 1).drop_last() =~= mapped.take(k));
        assert(mapped.take(k + 1).last() == m.deep_view());
        if !chars_are(&chars_of(m.id.as_str()), "chatgpt-local") {
            let ghost before = kept.deep_view();
            kept.push(m);
            assert(kept.deep_view() =~= before.push(mapped[k]));
        }
        proof {
            k = k + 1;
        }
    }
    assert(mapped.take(k) =~= mapped);
    kept
}

fn push_id(ids: &mut Vec<String>, id: &str)
    ensures
        final(ids).deep_view() == old(ids).deep_view().push(id@),
{
    ids.push(owned(id));
    assert(ids.deep_view() =~= old(ids).deep_view().push(id@));
}

/// The source list after migration (see `migrated_sources`), given the
/// already migrated legacy AI-MEMBER settings.
fn migrated_source_list(
    sources: Vec<DataSourceSettings>,
    ai_member: &AiMemberSettings,
    kimi: &KimiSettings,
    deepseek: &DeepSeekSettings,
    Ghost(s): Ghost<SettingsView>,
) -> (r: Vec<DataSourceSettings>)
    requires
        s.sources == sources.deep_view(),
        s.kimi == kimi.deep_view(),
        s.deepseek == deepseek.deep_view(),
    ensures
        r.deep_view() == migrated_sources(s, ai_member.deep_view()),
{
    let mut sources = sources;
    if sources.len() == 0 {
        sources = preset_source_list(ai_member.copy(), kimi.copy(), deepseek.copy());
    }
    if !has_source_id(&sources, "siliconflow") {
        let ghost before = sources.deep_view();
        sources.push(siliconflow_source());
        assert(sources.deep_view() =~= before.push(siliconflow_source_view()));
    }
    if !has_source_id(&sources, "glm") {
        let ghost before = sources.deep_view();
        sources.push(glm_source());
        assert(sources.deep_view() =~= before.push(glm_source_view()));
    }
    migrate_source_list(sources)
}

/// The taskbar source ids after migration.
fn migrated_taskbar_ids(ids: Vec<String>, switches: TaskbarSources) -> (r: Vec<String>)
    ensures
        r.deep_view() == (if ids.deep_view().len() == 0 {
            taskbar_ids_from(switches)
        } else {
            ids.deep_view()
        }),
{
    if ids.len() > 0 {
        return ids;
    }
    let mut out: Vec<String> = Vec::new();
    assert(out.deep_view() =~= Seq::<Seq<char>>::empty());
    if switches.chatgpt {
        push_id(&mut out, "chatgpt");
    }
    if switches.ai_member {
        push_id(&mut out, "ai-member");
    }
    if switches.kimi {
        push_id(&mut out, "kimi");
    }
    if switches.deepseek {
        push_id(&mut out, "deepseek");
    }
    assert(out.deep_view() =~= taskbar_ids_from(switches));
    out
}

/// The selected source after migration.
fn migrated_selection(selected: String, sources: &Vec<DataSourceSettings>) -> (r: String)
    ensures
        r@ == (if has_source(sources.deep_view(), selected@) {
            selected@
        } else if sources.deep_view().len() > 0 {
            sources.deep_view()[0].id
        } else {
            "chatgpt"@
        }),
{
    if has_source_id(sources, selected.as_str()) {
        selected
    } else if sources.len() > 0 {
        sources[0].id.clone()
    } else {
        owned("chatgpt")
    }
}

/// Brings settings written by an older version up to date
/// (see `migrate_view`).
pub fn migrate_settings(settings: &mut MeterSettings)
    ensures
        final(settings).deep_view() == migrate_view(old(settings).deep_view()),
{
    let ghost s = old(settings).deep_view();
    if !chars_are(&chars_of(settings.language.as_str()), "zh") {
        settings.language = default_language();
    }
    if old_ai_member_endpoint(settings.ai_member.balance_endpoint.as_str()) {
        settings.ai_member.balance_endpoint = default_ai_member_balance_endpoint();
    }
    let mut pending: Vec<DataSourceSettings> = Vec::new();
    std::mem::swap(&mut pending, &mut settings.sources);
    let sources = migrated_source_list(
        pending,
        &settings.ai_member,
        &settings.kimi,
        &settings.deepseek,
        Ghost(s),
    );
    settings.sources = sources;
    let mut ids: Vec<String> = Vec::new();
    std::mem::swap(&mut ids, &mut settings.taskbar_source_ids);
    settings.taskbar_source_ids = migrated_taskbar_ids(ids, settings.taskbar_sources);
    let mut selected = String::new();
    std::mem::swap(&mut selected, &mut settings.selected_meter_source);
    settings.selected_meter_source = migrated_selection(selected, &settings.sources);
    assert(settings.deep_view() =~= migrate_view(s));
}

// ------------------------------------------------------------------------
// Defaults of the settings types
// ------------------------------------------------------------------------

/// Default taskbar switches: only ChatGPT.
pub open spec fn default_taskbar_sources_view() -> TaskbarSources {
    TaskbarSources { chatgpt: true, ai_member: false, kimi: false, deepseek: false }
}

/// Default taskbar appearance.
pub open spec fn default_appearance_view() -> AppearanceView {
    AppearanceView {
        text_size_px: default_text_size(),
        reset_text_size_px: default_reset_text_size(),
        text_color: DEFAULT_TASKBAR_TEXT_COLOR@,
        progress_color: DEFAULT_TASKBAR_PROGRESS_COLOR@,
    }
}

/// Default meter offsets: 120 pixels in from the right.
pub open spec fn default_offsets() -> MeterOffsets {
    MeterOffsets { left: 0, right: 120, top: 0, bottom: 0 }
}

/// Fresh settings.
pub open spec fn default_settings_view() -> SettingsView {
    SettingsView {
        language: DEFAULT_LANGUAGE@,
        anchor: MeterAnchor::Right,
        offsets: default_offsets(),
        selected_usage_window_id: None,
        selected_meter_source: "chatgpt"@,
        sources: default_sources_view(),
        ai_member: default_ai_member_view(),
        kimi: default_kimi_view(),
        deepseek: default_deepseek_view(),
        taskbar_sources: default_taskbar_sources_view(),
        taskbar_source_ids: Seq::empty(),
        taskbar_scroll_seconds: default_scroll_seconds(),
        taskbar_scroll_animation_seconds: default_scroll_animation_seconds(),
        taskbar_appearance: default_appearance_view(),
        query_refresh_seconds: default_refresh_seconds(),
    }
}

impl MeterAnchor {
    /// The right end of the taskbar.
    pub fn default() -> (r: MeterAnchor)
        ensures
            r == MeterAnchor::Right,
    {
        MeterAnchor::Right
    }
}

impl MeterOffsets {
    /// 120 pixels in from the right.
    pub fn default() -> (r: MeterOffsets)
        ensures
            r == default_offsets(),
    {
        MeterOffsets { left: 0, right: 120, top: 0, bottom: 0 }
    }
}

impl DataSourceKind {
    /// A generic HTTP source.
    pub fn default() -> (r: DataSourceKind)
        ensures
            r == DataSourceKind::Http,
    {
        DataSourceKind::Http
    }
}

impl TaskbarSources {
    /// Only ChatGPT on the taskbar.
    pub fn default() -> (r: TaskbarSources)
        ensures
            r == default_taskbar_sources_view(),
    {
        TaskbarSources { chatgpt: true, ai_member: false, kimi: false, deepseek: false }
    }
}

impl TaskbarAppearance {
    /// The default taskbar look.
    pub fn default() -> (r: TaskbarAppearance)
        ensures
            r.deep_view() == default_appearance_view(),
    {
        TaskbarAppearance {
            text_size_px: default_taskbar_text_size_px(),
            reset_text_size_px: default_taskbar_reset_text_size_px(),
            text_color: default_taskbar_text_color(),
            progress_color: default_taskbar_progress_color(),
        }
    }
}

impl MeterSettings {
    /// Fresh settings.
    pub fn default() -> (r: MeterSettings)
        ensures
            r.deep_view() == default_settings_view(),
    {
        let r = MeterSettings {
            language: default_language(),
            anchor: MeterAnchor::Right,
            offsets: MeterOffsets { left: 0, right: 120, top: 0, bottom: 0 },
            selected_usage_window_id: None,
            selected_meter_source: owned("chatgpt"),
            sources: default_sources(),
            ai_member: AiMemberSettings::default(),
            kimi: KimiSettings::default(),
            deepseek: DeepSeekSettings::default(),
            taskbar_sources: TaskbarSources::default(),
            taskbar_source_ids: no_strings(),
            taskbar_scroll_seconds: default_taskbar_scroll_seconds(),
            taskbar_scroll_animation_seconds: default_taskbar_scroll_animation_seconds(),
            taskbar_appearance: TaskbarAppearance::default(),
            query_refresh_seconds: default_query_refresh_seconds(),
        };
        assert(r.deep_view() =~= default_settings_view());
        r
    }
}

// ------------------------------------------------------------------------
// Laws of the migration
// ------------------------------------------------------------------------

proof fn lemma_migrate_source_keeps_id(x: SourceView)
    ensures
        migrate_source_view(x).id == x.id,
        migrate_source_view(x).enabled,
{
    reveal(migrate_source_view);
}

proof fn lemma_without_id_members(sources: Seq<SourceView>, id: Seq<char>)
    ensures
        forall|j: int| 0 <= j < without_id(sources, id).len() ==> #[trigger] without_id(sources, id)[j].id != id,
        forall|j: int| 0 <= j < without_id(sources, id).len() ==> exists|i: int|
            0 <= i < sources.len() && sources[i] == #[trigger] without_id(sources, id)[j],
        forall|i: int| 0 <= i < sources.len() && #[trigger] sources[i].id != id ==> exists|j: int|
            0 <= j < without_id(sources, id).len() && without_id(sources, id)[j] == sources[i],
    decreases sources.len(),
{
    if sources.len() > 0 {
        let init = sources.drop_last();
        lemma_without_id_members(init, id);
        let r = without_id(sources, id);
        let ri = without_id(init, id);
        assert forall|j: int| 0 <= j < r.len() implies exists|i: int|
            0 <= i < sources.len() && sources[i] == #[trigger] r[j] by {
            if j < ri.len() {
                assert(r[j] == ri[j]);
                let i = choose|i: int| 0 <= i < init.len() && init[i] == ri[j];
                assert(sources[i] == init[i]);
            } else {
                assert(r[j] == sources.last());
                assert(sources[sources.len() - 1] == sources.last());
            }
        }
        assert forall|i: int| 0 <= i < sources.len() && #[trigger] sources[i].id != id implies exists|
            j: int,
        | 0 <= j < r.len() && r[j] == sources[i] by {
            if i < init.len() {
                assert(init[i] == sources[i]);
                let j = choose|j: int| 0 <= j < ri.len() && ri[j] == init[i];
                assert(r[j] == ri[j]);
            } else {
                assert(r[r.len() - 1] == sources.last());
            }
        }
    }
}

proof fn lemma_migrated_list_keeps(list: Seq<SourceView>, id: Seq<char>)
    requires
        has_source(list, id),
        id != "chatgpt-local"@,
    ensures
        has_source(migrate_list(list), id),
{
    let mapped = list.map_values(|x: SourceView| migrate_source_view(x));
    lemma_without_id_members(mapped, "chatgpt-local"@);
    let i = choose|i: int| 0 <= i < list.len() && #[trigger] list[i].id == id;
    lemma_migrate_source_keeps_id(list[i]);
    assert(mapped[i].id == id);
    let r = without_id(mapped, "chatgpt-local"@);
    let j = choose|j: int| 0 <= j < r.len() && r[j] == mapped[i];
    assert(r[j].id == id);
}

proof fn lemma_migrated_list_enabled(list: Seq<SourceView>)
    ensures
        forall|j: int| 0 <= j < migrate_list(list).len()
            ==> (#[trigger] migrate_list(list)[j]).enabled,
        !has_source(migrate_list(list), "chatgpt-local"@),
{
    let mapped = list.map_values(|x: SourceView| migrate_source_view(x));
    let r = without_id(mapped, "chatgpt-local"@);
    lemma_without_id_members(mapped, "chatgpt-local"@);
    assert forall|j: int| 0 <= j < r.len() implies (#[trigger] r[j]).enabled by {
        let k = choose|k: int| 0 <= k < mapped.len() && mapped[k] == r[j];
        lemma_migrate_source_keeps_id(list[k]);
    }
}

proof fn lemma_presence(list: Seq<SourceView>, extra: SourceView, id: Seq<char>)
    requires
        extra.id == id,
    ensures
        has_source(ensure_source(list, extra), id),
        forall|other: Seq<char>| has_source(list, other) ==> #[trigger] has_source(
            ensure_source(list, extra),
            other,
        ),
{
    if !has_source(list, id) {
        let l2 = list.push(extra);
        assert(l2[l2.len() - 1].id == id);
        assert forall|other: Seq<char>| has_source(list, other) implies #[trigger] has_source(l2, other) by {
            let i = choose|i: int| 0 <= i < list.len() && #[trigger] list[i].id == other;
            assert(l2[i] == list[i]);
        }
    }
}

/// After migration every source is enabled, the SiliconFlow and GLM
/// sources are present, no `chatgpt-local` source is left, the selected
/// source is one of the sources, and the language is English or Chinese.
pub proof fn law_migrated_settings_are_complete(s: SettingsView)
    ensures
        ({
            let m = migrate_view(s);
            &&& forall|i: int| 0 <= i < m.sources.len() ==> (#[trigger] m.sources[i]).enabled
            &&& has_source(m.sources, "siliconflow"@)
            &&& has_source(m.sources, "glm"@)
            &&& !has_source(m.sources, "chatgpt-local"@)
            &&& has_source(m.sources, m.selected_meter_source)
            &&& (m.language == "en"@ || m.language == "zh"@)
        }),
{
    reveal_strlit("siliconflow");
    reveal_strlit("glm");
    reveal_strlit("chatgpt-local");
    assert("siliconflow"@.len() == 11);
    assert("glm"@.len() == 3);
    assert("chatgpt-local"@.len() == 13);
    let m = migrate_view(s);
    let sources0 = if s.sources.len() == 0 {
        preset_sources(m.ai_member, s.kimi, s.deepseek)
    } else {
        s.sources
    };
    lemma_presence(sources0, siliconflow_source_view(), "siliconflow"@);
    let sources1 = ensure_source(sources0, siliconflow_source_view());
    lemma_presence(sources1, glm_source_view(), "glm"@);
    let sources2 = ensure_source(sources1, glm_source_view());
    assert(has_source(sources2, "siliconflow"@));
    assert(m.sources == migrate_list(sources2));
    lemma_migrated_list_keeps(sources2, "siliconflow"@);
    lemma_migrated_list_keeps(sources2, "glm"@);
    lemma_migrated_list_enabled(sources2);
    let k = choose|i: int| 0 <= i < m.sources.len() && #[trigger] m.sources[i].id == "glm"@;
    assert(m.sources[0].id == m.sources[0].id);
}

/// Whether none of the built-in transform scripts is blank or reads as
/// the legacy Kimi script.
pub open spec fn builtin_scripts_current() -> bool {
    &&& forall|t: Seq<char>|
        #![trigger is_builtin_script(t)]
        is_builtin_script(t) ==> !is_legacy_kimi_script(t) && trim(t).len() > 0
}

/// The built-in transform scripts.
pub open spec fn is_builtin_script(t: Seq<char>) -> bool {
    ||| t == CHATGPT_TRANSFORM_SCRIPT@
    ||| t == AI_MEMBER_TRANSFORM_SCRIPT@
    ||| t == DEEPSEEK_TRANSFORM_SCRIPT@
    ||| t == SILICONFLOW_TRANSFORM_SCRIPT@
    ||| t == GLM_TRANSFORM_SCRIPT@
    ||| t == KIMI_TRANSFORM_SCRIPT@
    ||| t == CUSTOM_TRANSFORM_SCRIPT@
}

fn script_is_current(script: &str) -> (r: bool)
    ensures
        r == (!is_legacy_kimi_script(script@) && trim(script@).len() > 0),
{
    !is_legacy_kimi_transform_script(script) && trim_chars(&chars_of(script)).len() > 0
}

/// Whether none of the built-in transform scripts is blank or reads as the
/// legacy Kimi script (see `builtin_scripts_current`), checked on the
/// scripts themselves.
pub fn builtin_scripts_are_current() -> (r: bool)
    ensures
        r == builtin_scripts_current(),
{
    let r = script_is_current(CHATGPT_TRANSFORM_SCRIPT) && script_is_current(
        AI_MEMBER_TRANSFORM_SCRIPT,
    ) && script_is_current(DEEPSEEK_TRANSFORM_SCRIPT) && script_is_current(
        SILICONFLOW_TRANSFORM_SCRIPT,
    ) && script_is_current(GLM_TRANSFORM_SCRIPT) && script_is_current(KIMI_TRANSFORM_SCRIPT)
        && script_is_current(CUSTOM_TRANSFORM_SCRIPT);
    proof {
        if !r {
            if !script_is_current_view(CHATGPT_TRANSFORM_SCRIPT@) {
                assert(is_builtin_script(CHATGPT_TRANSFORM_SCRIPT@));
            } else if !script_is_current_view(AI_MEMBER_TRANSFORM_SCRIPT@) {
                assert(is_builtin_script(AI_MEMBER_TRANSFORM_SCRIPT@));
            } else if !script_is_current_view(DEEPSEEK_TRANSFORM_SCRIPT@) {
                assert(is_builtin_script(DEEPSEEK_TRANSFORM_SCRIPT@));
            } else if !script_is_current_view(SILICONFLOW_TRANSFORM_SCRIPT@) {
                assert(is_builtin_script(SILICONFLOW_TRANSFORM_SCRIPT@));
            } else if !script_is_current_view(GLM_TRANSFORM_SCRIPT@) {
                assert(is_builtin_script(GLM_TRANSFORM_SCRIPT@));
            } else if !script_is_current_view(KIMI_TRANSFORM_SCRIPT@) {
                assert(is_builtin_script(KIMI_TRANSFORM_SCRIPT@));
            } else {
                assert(is_builtin_script(CUSTOM_TRANSFORM_SCRIPT@));
            }
        }
    }
    r
}

/// Whether a script is neither blank nor the legacy Kimi script.
pub open spec fn script_is_current_view(t: Seq<char>) -> bool {
    !is_legacy_kimi_script(t) && trim(t).len() > 0
}

/// A Kimi-kind source that carries the ChatGPT id, base URL and legacy
/// endpoint: migration turns it into an HTTP source, and a second
/// migration then moves its endpoint.
pub open spec fn is_kimi_kind_legacy_chatgpt(x: SourceView) -> bool {
    &&& x.kind == DataSourceKind::Kimi
    &&& x.id == "chatgpt"@
    &&& strip_end_char(x.base_url, '/') == DEFAULT_CHATGPT_BASE_URL@
    &&& x.endpoint == LEGACY_CHATGPT_ENDPOINT@
}

proof fn lemma_default_script_builtin(x: SourceView)
    ensures
        default_script_for(x) matches Some(t) ==> is_builtin_script(t),
{
}

/// Migrating a source twice gives what migrating it once gives, unless it
/// is a Kimi-kind source with the ChatGPT id on the legacy ChatGPT endpoint.
pub proof fn law_migrate_source_idempotent(x: SourceView)
    requires
        builtin_scripts_current(),
        !is_kimi_kind_legacy_chatgpt(x),
    ensures
        migrate_source_view(migrate_source_view(x)) == migrate_source_view(x),
{
    reveal(migrate_source_view);
    reveal_strlit("/wham/usage");
    reveal_strlit("/accounts/check/v4-2024-01-01");
    assert(DEFAULT_CHATGPT_USAGE_ENDPOINT@.len() == 11);
    assert(LEGACY_CHATGPT_ENDPOINT@.len() == 29);
    let y = migrate_source_view(x);
    lemma_default_script_builtin(y);
    lemma_default_script_builtin(x);
    let x1 = if x.id == "chatgpt"@ && x.kind == DataSourceKind::Chatgpt {
        SourceView {
            kind: DataSourceKind::Http,
            base_url: DEFAULT_CHATGPT_BASE_URL@,
            endpoint: DEFAULT_CHATGPT_USAGE_ENDPOINT@,
            headers: chatgpt_headers_view(),
            transform_script: CHATGPT_TRANSFORM_SCRIPT@,
            ..x
        }
    } else {
        x
    };
    assert(is_builtin_script(CHATGPT_TRANSFORM_SCRIPT@));
    assert(is_builtin_script(KIMI_TRANSFORM_SCRIPT@));
}

proof fn lemma_without_id_noop(list: Seq<SourceView>, id: Seq<char>)
    requires
        !has_source(list, id),
    ensures
        without_id(list, id) == list,
    decreases list.len(),
{
    if list.len() > 0 {
        let init = list.drop_last();
        assert forall|i: int| 0 <= i < init.len() implies #[trigger] init[i].id != id by {
            assert(init[i] == list[i]);
        }
        lemma_without_id_noop(init, id);
        assert(list[list.len() - 1].id != id);
        assert(init.push(list.last()) =~= list);
    }
}

proof fn lemma_migrate_list_idempotent(l: Seq<SourceView>)
    requires
        builtin_scripts_current(),
        forall|i: int| 0 <= i < l.len() ==> !is_kimi_kind_legacy_chatgpt(#[trigger] l[i]),
    ensures
        migrate_list(migrate_list(l)) == migrate_list(l),
{
    let mapped = l.map_values(|x: SourceView| migrate_source_view(x));
    let r = migrate_list(l);
    lemma_without_id_members(mapped, "chatgpt-local"@);
    let again = r.map_values(|x: SourceView| migrate_source_view(x));
    assert forall|j: int| 0 <= j < r.len() implies #[trigger] again[j] == r[j] by {
        let k = choose|k: int| 0 <= k < mapped.len() && mapped[k] == r[j];
        law_migrate_source_idempotent(l[k]);
    }
    assert(again =~= r);
    lemma_migrated_list_enabled(l);
    lemma_without_id_noop(r, "chatgpt-local"@);
}

proof fn lemma_preset_sources_http(a: AiMemberView, k: KimiView, d: DeepSeekView)
    ensures
        forall|i: int| 0 <= i < preset_sources(a, k, d).len() ==> (#[trigger] preset_sources(a, k, d)[i]).kind
            == DataSourceKind::Http,
{
    reveal(preset_sources);
}

proof fn lemma_ensure_source_keeps(list: Seq<SourceView>, extra: SourceView)
    requires
        forall|i: int| 0 <= i < list.len() ==> !is_kimi_kind_legacy_chatgpt(#[trigger] list[i]),
        extra.kind == DataSourceKind::Http,
    ensures
        forall|i: int| 0 <= i < ensure_source(list, extra).len() ==> !is_kimi_kind_legacy_chatgpt(
            #[trigger] ensure_source(list, extra)[i],
        ),
{
    if !has_source(list, extra.id) {
        let l2 = list.push(extra);
        assert forall|i: int| 0 <= i < l2.len() implies !is_kimi_kind_legacy_chatgpt(#[trigger] l2[i]) by {
            if i < list.len() {
                assert(l2[i] == list[i]);
            }
        }
    }
}

/// Migrating settings twice gives what migrating them once gives, unless
/// a source is a Kimi-kind source with the ChatGPT id on the legacy
/// ChatGPT endpoint (see `is_kimi_kind_legacy_chatgpt`).
pub proof fn law_migrate_idempotent(s: SettingsView)
    requires
        builtin_scripts_current(),
        forall|i: int| 0 <= i < s.sources.len() ==> !is_kimi_kind_legacy_chatgpt(#[trigger] s.sources[i]),
    ensures
        migrate_view(migrate_view(s)) == migrate_view(s),
{
    reveal_strlit("siliconflow");
    reveal_strlit("glm");
    reveal_strlit("/api/v1/auth/me?timezone=Asia%2FShanghai");
    reveal_strlit("/api/usage/token/");
    reveal_strlit("/api/usage/token");
    reveal_strlit("/v1/balance");
    reveal_strlit("/api/v1/balance");
    assert(DEFAULT_AI_MEMBER_BALANCE_ENDPOINT@.len() == 40);
    assert(!is_old_ai_member_endpoint(DEFAULT_AI_MEMBER_BALANCE_ENDPOINT@));
    let m = migrate_view(s);
    law_migrated_settings_are_complete(s);
    let sources0 = if s.sources.len() == 0 {
        preset_sources(m.ai_member, s.kimi, s.deepseek)
    } else {
        s.sources
    };
    lemma_preset_sources_http(m.ai_member, s.kimi, s.deepseek);
    let sources1 = ensure_source(sources0, siliconflow_source_view());
    lemma_ensure_source_keeps(sources0, siliconflow_source_view());
    let sources2 = ensure_source(sources1, glm_source_view());
    lemma_ensure_source_keeps(sources1, glm_source_view());
    assert(m.sources == migrate_list(sources2));
    lemma_migrate_list_idempotent(sources2);
    assert(m.sources.len() > 0);
    assert(siliconflow_source_view().id == "siliconflow"@);
    assert(glm_source_view().id == "glm"@);
    assert(ensure_source(m.sources, siliconflow_source_view()) == m.sources);
    assert(ensure_source(m.sources, glm_source_view()) == m.sources);
    let m2 = migrate_view(m);
    assert(m2.sources == migrate_list(m.sources));
    assert(m2 =~= m);
}


/// Migration retires the legacy ChatGPT endpoint: an HTTP source with the
/// ChatGPT id on the ChatGPT base URL and the legacy endpoint moves to the
/// usage endpoint with the ChatGPT headers, and after migration no HTTP
/// source with the ChatGPT id on the ChatGPT base URL is left on the legacy
/// endpoint, unless it was a Kimi-kind source there (see
/// `is_kimi_kind_legacy_chatgpt`).
pub proof fn law_migration_retires_legacy_chatgpt_endpoint(x: SourceView)
    ensures
        ({
            let y = migrate_source_view(x);
            &&& (x.kind == DataSourceKind::Http && x.id == "chatgpt"@ && strip_end_char(
                x.base_url,
                '/',
            ) == DEFAULT_CHATGPT_BASE_URL@ && x.endpoint == LEGACY_CHATGPT_ENDPOINT@) ==> (
            y.endpoint == DEFAULT_CHATGPT_USAGE_ENDPOINT@ && y.headers == chatgpt_headers_view()
                && y.kind == DataSourceKind::Http && y.id == x.id && y.base_url == x.base_url)
            &&& (!is_kimi_kind_legacy_chatgpt(x) && y.kind == DataSourceKind::Http && y.id
                == "chatgpt"@ && strip_end_char(y.base_url, '/') == DEFAULT_CHATGPT_BASE_URL@)
                ==> y.endpoint != LEGACY_CHATGPT_ENDPOINT@
        }),
        DEFAULT_CHATGPT_USAGE_ENDPOINT@ != LEGACY_CHATGPT_ENDPOINT@,
{
    reveal(migrate_source_view);
    reveal_strlit("/wham/usage");
    reveal_strlit("/accounts/check/v4-2024-01-01");
    assert(DEFAULT_CHATGPT_USAGE_ENDPOINT@.len() == 11);
    assert(LEGACY_CHATGPT_ENDPOINT@.len() == 29);
}

} // verus!
