//! The transform scripts that built-in data sources run on a provider's
//! JSON reply (JavaScript, evaluated with `json` and `source` in scope).

use vstd::prelude::*;

verus! {

/// Transform script of the built-in ChatGPT source.
pub const CHATGPT_TRANSFORM_SCRIPT: &'static str = r#"function numberLike(value) {
  if (typeof value === "number") return value;
  if (typeof value === "string" && value.trim()) return Number(value);
  return NaN;
}

function get(path, root = json) {
  return path.split(".").reduce((value, key) => value == null ? undefined : value[key], root);
}

function timestamp(value) {
  if (value == null || value === "") return null;
  if (typeof value === "string" && Number.isNaN(Number(value))) return value;
  const raw = Number(value);
  if (!Number.isFinite(raw)) return null;
  const millis = raw > 10000000000 ? raw : raw * 1000;
  return new Date(millis).toISOString();
}

function durationLabel(window) {
  const minutes = numberLike(window.windowDurationMins)
    || numberLike(window.window_duration_mins)
    || numberLike(window.window_duration_ms) / 60000
    || numberLike(window.window_duration_seconds) / 60
    || numberLike(window.limit_window_seconds) / 60
    || numberLike(window.period_seconds) / 60;
  return Number.isFinite(minutes) && minutes > 0 ? Math.round(minutes) + " 分钟" : "用量窗口";
}

function windowPercent(window) {
  const direct = numberLike(window.usedPercent ?? window.used_percent);
  if (Number.isFinite(direct)) return Math.max(0, Math.min(100, Math.round(direct)));

  const limit = numberLike(window.limit);
  const remaining = numberLike(window.remaining);
  const used = Number.isFinite(numberLike(window.used)) ? numberLike(window.used) : limit - remaining;
  if (!Number.isFinite(limit) || limit <= 0 || !Number.isFinite(remaining)) return null;
  return Math.max(0, Math.min(100, Math.round((Math.max(0, used) / limit) * 100)));
}

function normalizeBucket(bucket, fallbackId) {
  const limitId = bucket.limitId || bucket.limit_id || bucket.id || fallbackId || "codex";
  const limitName = bucket.limitName || bucket.limit_name || bucket.name || "Codex";
  const items = [];

  for (const [key, label] of [["primary", "主用量窗口"], ["secondary", "次用量窗口"]]) {
    const window = bucket[key];
    if (!window) continue;
    const usedPercent = windowPercent(window);
    if (usedPercent == null) continue;
    items.push({
      id: "codex-" + limitId + "-" + key,
      label,
      usedPercent,
      remainingPercent: 100 - usedPercent,
      resetsAt: timestamp(window.resetsAt ?? window.resets_at ?? window.resetTime ?? window.reset_time ?? window.expiresAt ?? window.expires_at),
      limitLabel: limitName + " / " + durationLabel(window),
      bucketId: limitId,
      windowKey: key
    });
  }

  if (!items.length) {
    const usedPercent = windowPercent(bucket);
    if (usedPercent != null) {
      items.push({
        id: "codex-" + limitId + "-primary",
        label: "主用量窗口",
        usedPercent,
        remainingPercent: 100 - usedPercent,
        resetsAt: timestamp(bucket.resetsAt ?? bucket.resets_at ?? bucket.resetTime ?? bucket.reset_time ?? bucket.expiresAt ?? bucket.expires_at),
        limitLabel: limitName + " / " + durationLabel(bucket),
        bucketId: limitId,
        windowKey: "primary"
      });
    }
  }

  return items;
}

function normalizeWhamUsage() {
  const rateLimit = json.rate_limit;
  if (!rateLimit || typeof rateLimit !== "object") return [];

  const bucket = {
    limitId: "codex",
    limitName: "Codex",
    primary: rateLimit.primary_window,
    secondary: rateLimit.secondary_window
  };

  return normalizeBucket(bucket, "codex").map((window) => ({
    ...window,
    resetsAt: window.resetsAt || timestamp(
      (window.windowKey === "primary" ? rateLimit.primary_window : rateLimit.secondary_window)?.reset_at
    )
  }));
}

function collectBuckets() {
  const whamWindows = normalizeWhamUsage();
  if (whamWindows.length) return whamWindows;

  const directMap = json.rateLimitsByLimitId || json.rate_limits_by_limit_id;
  if (directMap && typeof directMap === "object" && !Array.isArray(directMap)) {
    return Object.entries(directMap).flatMap(([id, bucket]) => normalizeBucket(bucket, id));
  }

  for (const key of ["rate_limits", "rateLimits", "limits"]) {
    const value = json[key];
    if (Array.isArray(value)) {
      return value.flatMap((bucket, index) => normalizeBucket(bucket, bucket.limit_id || bucket.limitId || bucket.id || "limit-" + index));
    }
    if (value && typeof value === "object") {
      return Object.entries(value).flatMap(([id, bucket]) => normalizeBucket(bucket, id));
    }
  }

  return Object.entries(json)
    .filter(([, value]) => value && typeof value === "object")
    .flatMap(([id, bucket]) => normalizeBucket(bucket, id));
}

const windows = collectBuckets();
if (!windows.length) throw new Error("No ChatGPT Codex usage windows found");

const account = json.account || json.user || {};
const plan = json.account_plan || json.subscription || {};

return {
  accountLabel: account.email || json.email || "ChatGPT",
  planLabel: plan.plan_type || plan.name || account.planType || account.plan_type || json.plan_type || null,
  message: "ChatGPT 官方 HTTP 用量已更新",
  windows
};"#;

/// Transform script of the built-in AI-MEMBER source.
pub const AI_MEMBER_TRANSFORM_SCRIPT: &'static str = r#"const candidates = [
  "data.balance",
  "data.user_usd_available",
  "data.total_usd_available",
  "balance",
  "usd",
  "cents"
];

function get(path) {
  return path.split(".").reduce((value, key) => value == null ? undefined : value[key], json);
}

let balance = null;
for (const path of candidates) {
  const value = get(path);
  if (value !== undefined && value !== null && value !== "") {
    balance = Number(value);
    if (path === "cents") balance = balance / 100;
    break;
  }
}

if (!Number.isFinite(balance)) throw new Error("No balance field found");
const threshold = source.lowBalanceThreshold || 10;
const remainingPercent = Math.max(0, Math.min(100, Math.round(balance / threshold * 100)));

return {
  creditBalance: balance,
  message: `${source.label} current value: $${balance.toFixed(balance % 1 === 0 ? 0 : 2)}`,
  windows: [{
    id: `${source.id}-balance`,
    label: source.label,
    usedPercent: 100 - remainingPercent,
    remainingPercent,
    valueLabel: `$${balance.toFixed(balance % 1 === 0 ? 0 : 2)}`,
    limitLabel: "HTTP transform",
    bucketId: source.id,
    windowKey: "balance"
  }]
};"#;

/// Transform script of the built-in DeepSeek source.
pub const DEEPSEEK_TRANSFORM_SCRIPT: &'static str = r#"const infos = Array.isArray(json.balance_infos) ? json.balance_infos : [];
const selected = infos.find((item) => item.currency === "CNY") || infos[0];
if (!selected) throw new Error("No balance_infos item found");

const balance = Number(selected.total_balance);
if (!Number.isFinite(balance)) throw new Error("No total_balance field found");

const currency = selected.currency || "CNY";
const prefix = currency === "USD" ? "$" : `${currency} `;
const valueLabel = `${prefix}${balance.toFixed(balance % 1 === 0 ? 0 : 2)}`;
const threshold = source.lowBalanceThreshold || 10;
const remainingPercent = Math.max(0, Math.min(100, Math.round(balance / threshold * 100)));

return {
  creditBalance: balance,
  message: `${source.label} current value: ${valueLabel}`,
  windows: [{
    id: `${source.id}-balance`,
    label: source.label,
    usedPercent: 100 - remainingPercent,
    remainingPercent,
    valueLabel,
    limitLabel: "HTTP transform",
    bucketId: source.id,
    windowKey: "balance"
  }]
};"#;

/// Transform script of the built-in SiliconFlow source.
pub const SILICONFLOW_TRANSFORM_SCRIPT: &'static str = r#"const balance = Number(
  json.data?.balance ??
  json.data?.totalBalance ??
  json.data?.total_balance ??
  json.balance ??
  json.totalBalance ??
  json.total_balance
);

if (!Number.isFinite(balance)) throw new Error("No SiliconFlow balance field found");

const currency = json.data?.currency || json.currency || "CNY";
const prefix = currency === "USD" ? "$" : currency === "CNY" ? "CNY " : currency + " ";
const valueLabel = prefix + balance.toFixed(balance % 1 === 0 ? 0 : 2);
const threshold = source.lowBalanceThreshold || 10;
const remainingPercent = Math.max(0, Math.min(100, Math.round(balance / threshold * 100)));

return {
  accountLabel: json.data?.name || json.data?.email || source.label,
  planLabel: json.data?.status || source.baseUrl,
  creditBalance: balance,
  message: source.label + " current balance: " + valueLabel,
  windows: [{
    id: source.id + "-balance",
    label: source.label,
    usedPercent: 100 - remainingPercent,
    remainingPercent,
    valueLabel,
    limitLabel: "SiliconFlow user info",
    bucketId: source.id,
    windowKey: "balance"
  }]
};"#;

/// Transform script of the built-in GLM source.
pub const GLM_TRANSFORM_SCRIPT: &'static str = r#"function numberLike(value) {
  if (typeof value === "number") return value;
  if (typeof value === "string" && value.trim()) return Number(value);
  return NaN;
}

function timestamp(value) {
  if (value == null || value === "") return null;
  const raw = Number(value);
  if (!Number.isFinite(raw)) return typeof value === "string" ? value : null;
  return new Date(raw > 10000000000 ? raw : raw * 1000).toISOString();
}

const limits = Array.isArray(json.data?.limits) ? json.data.limits : [];
if (!limits.length) throw new Error("No GLM quota limits found");

const labels = {
  TOKENS_LIMIT: "Token quota",
  TIME_LIMIT: "Monthly quota"
};

const windows = limits.map((item, index) => {
  const limit = numberLike(item.usage ?? item.limit ?? item.total);
  const current = numberLike(item.currentValue ?? item.current_value ?? item.used);
  const directPercent = numberLike(item.percentage ?? item.usedPercent ?? item.used_percent);
  const usedPercent = Number.isFinite(directPercent)
    ? Math.max(0, Math.min(100, Math.round(directPercent)))
    : Number.isFinite(limit) && limit > 0 && Number.isFinite(current)
      ? Math.max(0, Math.min(100, Math.round((current / limit) * 100)))
      : 0;
  const type = String(item.type || "quota-" + index);
  return {
    id: source.id + "-" + type.toLowerCase().replace(/[^a-z0-9]+/g, "-"),
    label: labels[type] || type,
    usedPercent,
    remainingPercent: 100 - usedPercent,
    valueLabel: String(100 - usedPercent) + "%",
    resetsAt: timestamp(item.nextResetTime ?? item.next_reset_time ?? item.resetTime ?? item.reset_time),
    limitLabel: "GLM quota",
    bucketId: source.id,
    windowKey: type.toLowerCase()
  };
});

return {
  accountLabel: source.label,
  planLabel: source.baseUrl,
  message: source.label + " quota updated",
  windows
};"#;

/// Transform script of the built-in Kimi Code source.
pub const KIMI_TRANSFORM_SCRIPT: &'static str = r#"const weekly = json.usage;
if (!weekly) throw new Error("No weekly usage found");

const limit = Number(weekly.limit);
const remaining = Number(weekly.remaining);
if (!Number.isFinite(limit) || !Number.isFinite(remaining)) {
  throw new Error("Weekly usage is missing limit or remaining");
}

const used = Number.isFinite(Number(weekly.used)) ? Number(weekly.used) : Math.max(0, limit - remaining);
const remainingPercent = limit > 0 ? Math.max(0, Math.min(100, Math.round(remaining / limit * 100))) : 0;
const usedPercent = limit > 0 ? Math.max(0, Math.min(100, Math.round(used / limit * 100))) : 100 - remainingPercent;

return {
  message: `${source.label} 周额度 ${remainingPercent}%`,
  windows: [{
   id: `${source.id}-weekly`,
    label: "周额度",
   usedPercent,
   remainingPercent,
   valueLabel: `${remainingPercent}%`,
   resetsAt: weekly.resetTime || null,
    limitLabel: "Kimi Code 周额度",
   bucketId: source.id,
    windowKey: "weekly"
  }]
};"#;

/// Transform script of the built-in custom source.
pub const CUSTOM_TRANSFORM_SCRIPT: &'static str = r#"const balance = Number(json.data?.balance ?? json.balance);
if (!Number.isFinite(balance)) throw new Error("No balance field found");

const threshold = source.lowBalanceThreshold || 10;
const remainingPercent = Math.max(0, Math.min(100, Math.round(balance / threshold * 100)));

return {
  creditBalance: balance,
  windows: [{
    id: source.id + "-balance",
    label: source.label,
    usedPercent: 100 - remainingPercent,
    remainingPercent,
    valueLabel: String(balance),
    bucketId: source.id,
    windowKey: "balance"
  }]
};"#;

} // verus!
