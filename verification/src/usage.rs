//! Usage snapshots: what a data source reports, and how it is shown on the
//! taskbar meter and in the tray tooltip.

use vstd::prelude::*;
use crate::decimal::{decimal, u64_to_decimal};
use crate::json::FloatBits;
use crate::text::{concat, copy_opt_string, owned};

verus! {

/// One usage window (a quota, a balance, a rate-limit period).
#[derive(Debug)]
pub struct UsageWindow {
    pub id: String,
    pub label: String,
    pub used_percent: u8,
    pub remaining_percent: u8,
    pub value_label: Option<String>,
    pub resets_at: Option<String>,
    pub limit_label: Option<String>,
    pub bucket_id: Option<String>,
    pub window_key: Option<String>,
}

/// The state of a usage query.
#[derive(Clone, Copy, PartialEq, Eq, Structural, Debug)]
pub enum ProviderUsageStatus {
    Normal,
    CodexMissing,
    LoggedOut,
    Unauthorized,
    Unavailable,
    Error,
}

/// What the connector reported while a snapshot was taken.
#[derive(Debug)]
pub struct UsageDiagnostics {
    pub codex_path: Option<String>,
    pub codex_home: Option<String>,
    pub selected_window_id: Option<String>,
    pub buckets: Vec<UsageDiagnosticBucket>,
    pub raw_account_kind: Option<String>,
    pub requires_openai_auth: bool,
}

/// One rate-limit bucket seen by the connector.
#[derive(Debug)]
pub struct UsageDiagnosticBucket {
    pub id: String,
    pub name: Option<String>,
    pub primary_window_id: Option<String>,
    pub secondary_window_id: Option<String>,
}

/// One item of the taskbar meter.
#[derive(Debug)]
pub struct MeterDisplayItem {
    pub id: String,
    pub label: String,
    pub remaining_percent: u8,
    pub value_label: Option<String>,
    pub reset_label: Option<String>,
    pub status: ProviderUsageStatus,
}

/// A usage snapshot of one data source.
#[derive(Debug)]
pub struct ProviderUsage {
    pub provider: String,
    pub account_label: Option<String>,
    pub plan_label: Option<String>,
    pub credit_balance: Option<FloatBits>,
    pub status: ProviderUsageStatus,
    pub windows: Vec<UsageWindow>,
    pub meter_items: Vec<MeterDisplayItem>,
    pub updated_at: Option<String>,
    pub message: Option<String>,
    pub diagnostics: Option<UsageDiagnostics>,
}

/// `UsageWindow` as characters.
pub ghost struct WindowUsageView {
    pub id: Seq<char>,
    pub label: Seq<char>,
    pub used_percent: u8,
    pub remaining_percent: u8,
    pub value_label: Option<Seq<char>>,
    pub resets_at: Option<Seq<char>>,
    pub limit_label: Option<Seq<char>>,
    pub bucket_id: Option<Seq<char>>,
    pub window_key: Option<Seq<char>>,
}

/// `UsageDiagnosticBucket` as characters.
pub ghost struct BucketView {
    pub id: Seq<char>,
    pub name: Option<Seq<char>>,
    pub primary_window_id: Option<Seq<char>>,
    pub secondary_window_id: Option<Seq<char>>,
}

/// `UsageDiagnostics` as characters.
pub ghost struct DiagnosticsView {
    pub codex_path: Option<Seq<char>>,
    pub codex_home: Option<Seq<char>>,
    pub selected_window_id: Option<Seq<char>>,
    pub buckets: Seq<BucketView>,
    pub raw_account_kind: Option<Seq<char>>,
    pub requires_openai_auth: bool,
}

/// `MeterDisplayItem` as characters.
pub ghost struct MeterItemView {
    pub id: Seq<char>,
    pub label: Seq<char>,
    pub remaining_percent: u8,
    pub value_label: Option<Seq<char>>,
    pub reset_label: Option<Seq<char>>,
    pub status: ProviderUsageStatus,
}

/// `ProviderUsage` as characters.
pub ghost struct UsageView {
    pub provider: Seq<char>,
    pub account_label: Option<Seq<char>>,
    pub plan_label: Option<Seq<char>>,
    pub credit_balance: Option<FloatBits>,
    pub status: ProviderUsageStatus,
    pub windows: Seq<WindowUsageView>,
    pub meter_items: Seq<MeterItemView>,
    pub updated_at: Option<Seq<char>>,
    pub message: Option<Seq<char>>,
    pub diagnostics: Option<DiagnosticsView>,
}

impl DeepView for UsageWindow {
    type V = WindowUsageView;

    open spec fn deep_view(&self) -> WindowUsageView {
        WindowUsageView {
            id: self.id@,
            label: self.label@,
            used_percent: self.used_percent,
            remaining_percent: self.remaining_percent,
            value_label: self.value_label.deep_view(),
            resets_at: self.resets_at.deep_view(),
            limit_label: self.limit_label.deep_view(),
            bucket_id: self.bucket_id.deep_view(),
            window_key: self.window_key.deep_view(),
        }
    }
}

impl DeepView for UsageDiagnosticBucket {
    type V = BucketView;

    open spec fn deep_view(&self) -> BucketView {
        BucketView {
            id: self.id@,
            name: self.name.deep_view(),
            primary_window_id: self.primary_window_id.deep_view(),
            secondary_window_id: self.secondary_window_id.deep_view(),
        }
    }
}

impl DeepView for UsageDiagnostics {
    type V = DiagnosticsView;

    open spec fn deep_view(&self) -> DiagnosticsView {
        DiagnosticsView {
            codex_path: self.codex_path.deep_view(),
            codex_home: self.codex_home.deep_view(),
            selected_window_id: self.selected_window_id.deep_view(),
            buckets: self.buckets.deep_view(),
            raw_account_kind: self.raw_account_kind.deep_view(),
            requires_openai_auth: self.requires_openai_auth,
        }
    }
}

impl DeepView for MeterDisplayItem {
    type V = MeterItemView;

    open spec fn deep_view(&self) -> MeterItemView {
        MeterItemView {
            id: self.id@,
            label: self.label@,
            remaining_percent: self.remaining_percent,
            value_label: self.value_label.deep_view(),
            reset_label: self.reset_label.deep_view(),
            status: self.status,
        }
    }
}

impl DeepView for ProviderUsage {
    type V = UsageView;

    open spec fn deep_view(&self) -> UsageView {
        UsageView {
            provider: self.provider@,
            account_label: self.account_label.deep_view(),
            plan_label: self.plan_label.deep_view(),
            credit_balance: self.credit_balance,
            status: self.status,
            windows: self.windows.deep_view(),
            meter_items: self.meter_items.deep_view(),
            updated_at: self.updated_at.deep_view(),
            message: self.message.deep_view(),
            diagnostics: self.diagnostics.deep_view(),
        }
    }
}

/// The Chinese label of a status.
pub open spec fn status_label(s: ProviderUsageStatus) -> Seq<char> {
    match s {
        ProviderUsageStatus::Normal => "正常"@,
        ProviderUsageStatus::CodexMissing => "连接器不可用"@,
        ProviderUsageStatus::LoggedOut => "未登录"@,
        ProviderUsageStatus::Unauthorized => "无权限"@,
        ProviderUsageStatus::Unavailable => "不可用"@,
        ProviderUsageStatus::Error => "错误"@,
    }
}

impl ProviderUsageStatus {
    /// The Chinese label of this status.
    pub fn label(&self) -> (r: &'static str)
        ensures
            r@ == status_label(*self),
    {
        match self {
            ProviderUsageStatus::Normal => "正常",
            ProviderUsageStatus::CodexMissing => "连接器不可用",
            ProviderUsageStatus::LoggedOut => "未登录",
            ProviderUsageStatus::Unauthorized => "无权限",
            ProviderUsageStatus::Unavailable => "不可用",
            ProviderUsageStatus::Error => "错误",
        }
    }
}

impl UsageWindow {
    /// A copy of this window.
    pub fn copy(&self) -> (r: UsageWindow)
        ensures
            r.deep_view() == self.deep_view(),
    {
        UsageWindow {
            id: self.id.clone(),
            label: self.label.clone(),
            used_percent: self.used_percent,
            remaining_percent: self.remaining_percent,
            value_label: copy_opt_string(&self.value_label),
            resets_at: copy_opt_string(&self.resets_at),
            limit_label: copy_opt_string(&self.limit_label),
            bucket_id: copy_opt_string(&self.bucket_id),
            window_key: copy_opt_string(&self.window_key),
        }
    }
}

/// Copies of the windows, in order.
pub fn copy_windows(v: &Vec<UsageWindow>) -> (r: Vec<UsageWindow>)
    ensures
        r.deep_view() == v.deep_view(),
{
    let mut r: Vec<UsageWindow> = Vec::new();
    let mut i: usize = 0;
    while i < v.len()
        invariant
            i <= v@.len(),
            r@.len() == i,
            forall|k: int| 0 <= k < i ==> #[trigger] r@[k].deep_view() == v@[k].deep_view(),
        decreases v@.len() - i,
    {
        r.push(v[i].copy());
        i = i + 1;
    }
    assert(r.deep_view() =~= v.deep_view());
    r
}

impl UsageDiagnosticBucket {
    /// A copy of this bucket.
    pub fn copy(&self) -> (r: UsageDiagnosticBucket)
        ensures
            r.deep_view() == self.deep_view(),
    {
        UsageDiagnosticBucket {
            id: self.id.clone(),
            name: copy_opt_string(&self.name),
            primary_window_id: copy_opt_string(&self.primary_window_id),
            secondary_window_id: copy_opt_string(&self.secondary_window_id),
        }
    }
}

impl UsageDiagnostics {
    /// A copy of these diagnostics.
    pub fn copy(&self) -> (r: UsageDiagnostics)
        ensures
            r.deep_view() == self.deep_view(),
    {
        let mut buckets: Vec<UsageDiagnosticBucket> = Vec::new();
        let mut i: usize = 0;
        while i < self.buckets.len()
            invariant
                i <= self.buckets@.len(),
                buckets@.len() == i,
                forall|k: int| 0 <= k < i ==> #[trigger] buckets@[k].deep_view() == self.buckets@[k].deep_view(),
            decreases self.buckets@.len() - i,
        {
            buckets.push(self.buckets[i].copy());
            i = i + 1;
        }
        assert(buckets.deep_view() =~= self.buckets.deep_view());
        UsageDiagnostics {
            codex_path: copy_opt_string(&self.codex_path),
            codex_home: copy_opt_string(&self.codex_home),
            selected_window_id: copy_opt_string(&self.selected_window_id),
            buckets,
            raw_account_kind: copy_opt_string(&self.raw_account_kind),
            requires_openai_auth: self.requires_openai_auth,
        }
    }
}

impl MeterDisplayItem {
    /// A copy of this item.
    pub fn copy(&self) -> (r: MeterDisplayItem)
        ensures
            r.deep_view() == self.deep_view(),
    {
        MeterDisplayItem {
            id: self.id.clone(),
            label: self.label.clone(),
            remaining_percent: self.remaining_percent,
            value_label: copy_opt_string(&self.value_label),
            reset_label: copy_opt_string(&self.reset_label),
            status: self.status,
        }
    }
}

impl ProviderUsage {
    /// A copy of this snapshot.
    pub fn copy(&self) -> (r: ProviderUsage)
        ensures
            r.deep_view() == self.deep_view(),
    {
        let mut items: Vec<MeterDisplayItem> = Vec::new();
        let mut i: usize = 0;
        while i < self.meter_items.len()
            invariant
                i <= self.meter_items@.len(),
                items@.len() == i,
                forall|k: int| 0 <= k < i ==> #[trigger] items@[k].deep_view() == self.meter_items@[k].deep_view(),
            decreases self.meter_items@.len() - i,
        {
            items.push(self.meter_items[i].copy());
            i = i + 1;
        }
        assert(items.deep_view() =~= self.meter_items.deep_view());
        let diagnostics = match &self.diagnostics {
            Some(d) => Some(d.copy()),
            None => None,
        };
        ProviderUsage {
            provider: self.provider.clone(),
            account_label: copy_opt_string(&self.account_label),
            plan_label: copy_opt_string(&self.plan_label),
            credit_balance: self.credit_balance,
            status: self.status,
            windows: copy_windows(&self.windows),
            meter_items: items,
            updated_at: copy_opt_string(&self.updated_at),
            message: copy_opt_string(&self.message),
            diagnostics,
        }
    }
}

/// The label of a provider on the meter: its id.
pub fn provider_label(provider: &str) -> (r: String)
    ensures
        r@ == provider@,
{
    owned(provider)
}

/// The meter item of a snapshot: its provider, and the remaining share,
/// value and reset time of its first window (0 and nothing without one).
pub open spec fn meter_item_view(u: UsageView) -> MeterItemView {
    MeterItemView {
        id: u.provider,
        label: u.provider,
        remaining_percent: if u.windows.len() > 0 {
            u.windows[0].remaining_percent
        } else {
            0
        },
        value_label: if u.windows.len() > 0 {
            u.windows[0].value_label
        } else {
            None
        },
        reset_label: if u.windows.len() > 0 {
            u.windows[0].resets_at
        } else {
            None
        },
        status: u.status,
    }
}

/// The meter item of a snapshot (see `meter_item_view`).
pub fn meter_item_from_usage(usage: &ProviderUsage) -> (r: MeterDisplayItem)
    ensures
        r.deep_view() == meter_item_view(usage.deep_view()),
{
    let (remaining_percent, value_label, reset_label) = if usage.windows.len() > 0 {
        let w = &usage.windows[0];
        (w.remaining_percent, copy_opt_string(&w.value_label), copy_opt_string(&w.resets_at))
    } else {
        (0u8, None, None)
    };
    MeterDisplayItem {
        id: usage.provider.clone(),
        label: provider_label(usage.provider.as_str()),
        remaining_percent,
        value_label,
        reset_label,
        status: usage.status,
    }
}

/// The tray tooltip of a snapshot: the app name, the account (or a
/// placeholder), the status label, and the remaining share and reset time
/// of the first window.
pub open spec fn tooltip_view(u: UsageView) -> Seq<char> {
    let remaining = if u.windows.len() > 0 {
        "剩余 "@ + decimal(u.windows[0].remaining_percent as nat) + "%"@
    } else {
        "暂无用量窗口"@
    };
    let account = match u.account_label {
        Some(a) => a,
        None => "AI 用量监控"@,
    };
    let reset = if u.windows.len() > 0 && u.windows[0].resets_at is Some {
        " 重置 "@ + u.windows[0].resets_at->0
    } else {
        Seq::empty()
    };
    "Money Like Water\n"@ + account + "\n"@ + status_label(u.status) + ": "@ + remaining + reset
}

/// The tray tooltip of a snapshot (see `tooltip_view`).
pub fn usage_tooltip(usage: &ProviderUsage) -> (r: String)
    ensures
        r@ == tooltip_view(usage.deep_view()),
{
    let remaining = if usage.windows.len() > 0 {
        let p = u64_to_decimal(usage.windows[0].remaining_percent as u64);
        let a = concat("剩余 ", p.as_str());
        concat(a.as_str(), "%")
    } else {
        owned("暂无用量窗口")
    };
    let account = match &usage.account_label {
        Some(a) => a.clone(),
        None => owned("AI 用量监控"),
    };
    let reset = if usage.windows.len() > 0 && usage.windows[0].resets_at.is_some() {
        match &usage.windows[0].resets_at {
            Some(v) => concat(" 重置 ", v.as_str()),
            None => String::new(),
        }
    } else {
        String::new()
    };
    let t = concat("Money Like Water\n", account.as_str());
    let t = concat(t.as_str(), "\n");
    let t = concat(t.as_str(), usage.status.label());
    let t = concat(t.as_str(), ": ");
    let t = concat(t.as_str(), remaining.as_str());
    let t = concat(t.as_str(), reset.as_str());
    assert(t@ =~= tooltip_view(usage.deep_view()));
    t
}

} // verus!
