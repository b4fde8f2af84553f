//! HTTP data sources: the request plan, what a reply is read for, and the
//! usage snapshots built from it.

use vstd::prelude::*;
use crate::clock::now_rfc3339;
use crate::config::{ArrayWindowView, WindowView};
use crate::decimal::{decimal, u64_to_decimal, usize_to_decimal};
use crate::json::{FloatBits, FloatReading, Json, MalformedSegment, PathRead, read_path, value_at_path, read_view, opt_ref};
use crate::text::{
    char_is_space, chars_of, concat, copy_opt_string, copy_strings, is_space, owned, seq_eq, str_eq,
    starts_with, string_from, strip_end_char, strip_end_chars, strip_start_char, strip_start_chars,
    trim, trim_chars, trim_end, trim_start,
};
use crate::usage::{
    MeterItemView, ProviderUsage, ProviderUsageStatus, UsageView, UsageWindow, WindowUsageView,
};

verus! {

/// How the API key is sent.
#[derive(Clone, Copy, PartialEq, Eq, Structural, Debug)]
pub enum AuthMode {
    /// `Authorization: Bearer <key>`.
    Bearer,
    /// `Authorization: <key>`.
    Raw,
}

/// How a single value is shown.
#[derive(Clone, Copy, PartialEq, Eq, Structural, Debug)]
pub enum ValueKind {
    Money,
    Percent,
}

/// A value path and the divisor applied to the number found there.
#[derive(Debug)]
pub struct ExtractionRule {
    pub path: String,
    pub divisor: FloatBits,
}

/// A usage window read from one object of the reply.
#[derive(Debug)]
pub struct WindowRule {
    pub id: String,
    pub label: String,
    pub root_path: String,
    pub limit_path: String,
    pub remaining_path: String,
    pub used_path: Option<String>,
    pub reset_path: Option<String>,
    pub limit_label: Option<String>,
    pub window_key: Option<String>,
}

/// Usage windows read from each item of an array of the reply.
#[derive(Debug)]
pub struct ArrayWindowRule {
    pub id_prefix: String,
    pub label: String,
    pub array_path: String,
    pub item_root_path: String,
    pub limit_path: String,
    pub remaining_path: String,
    pub used_path: Option<String>,
    pub reset_path: Option<String>,
    pub limit_label: Option<String>,
    pub window_key_prefix: Option<String>,
}

/// Everything needed to query one HTTP data source.
#[derive(Debug)]
pub struct HttpSourceConfig {
    pub provider_id: String,
    pub label: String,
    pub base_url: String,
    pub endpoint: String,
    pub endpoint_fallbacks: Vec<String>,
    pub enabled: bool,
    pub api_key: String,
    pub auth: AuthMode,
    pub headers: Vec<(String, String)>,
    pub timeout_seconds: u64,
    pub window_id: String,
    pub window_key: String,
    pub limit_label: String,
    pub empty_limit_label: String,
    pub value_kind: ValueKind,
    pub low_threshold: Option<FloatBits>,
    pub extraction_rules: Vec<ExtractionRule>,
    pub currency_paths: Vec<String>,
    pub currency_default: Option<String>,
    pub reset_paths: Vec<String>,
    pub transform_script: String,
    pub window_rules: Vec<WindowRule>,
    pub array_window_rules: Vec<ArrayWindowRule>,
}

impl DeepView for ExtractionRule {
    type V = (Seq<char>, FloatBits);

    open spec fn deep_view(&self) -> (Seq<char>, FloatBits) {
        (self.path@, self.divisor)
    }
}

impl DeepView for WindowRule {
    type V = WindowView;

    open spec fn deep_view(&self) -> WindowView {
        WindowView {
            id: self.id@,
            label: self.label@,
            root_path: self.root_path@,
            limit_path: self.limit_path@,
            remaining_path: self.remaining_path@,
            used_path: self.used_path.deep_view(),
            reset_path: self.reset_path.deep_view(),
            limit_label: self.limit_label.deep_view(),
            window_key: self.window_key.deep_view(),
        }
    }
}

impl DeepView for ArrayWindowRule {
    type V = ArrayWindowView;

    open spec fn deep_view(&self) -> ArrayWindowView {
        ArrayWindowView {
            id_prefix: self.id_prefix@,
            label: self.label@,
            array_path: self.array_path@,
            item_root_path: self.item_root_path@,
            limit_path: self.limit_path@,
            remaining_path: self.remaining_path@,
            used_path: self.used_path.deep_view(),
            reset_path: self.reset_path.deep_view(),
            limit_label: self.limit_label.deep_view(),
            window_key_prefix: self.window_key_prefix.deep_view(),
        }
    }
}

// ------------------------------------------------------------------------
// Endpoints and URLs
// ------------------------------------------------------------------------

/// An endpoint trimmed and given a leading `/`; blank endpoints stay empty.
pub open spec fn normalize_endpoint_view(e: Seq<char>) -> Seq<char> {
    let t = trim(e);
    if t.len() == 0 {
        Seq::empty()
    } else if t[0] == '/' {
        t
    } else {
        seq!['/'] + t
    }
}

/// The base URL, trimmed and without trailing `/`, then `/`, then the
/// endpoint, trimmed and without leading `/`.
pub open spec fn join_url_view(base: Seq<char>, endpoint: Seq<char>) -> Seq<char> {
    strip_end_char(trim(base), '/') + seq!['/'] + strip_start_char(trim(endpoint), '/')
}

/// The distinct non-blank normalized endpoints of `list`, in order of
/// first appearance.
pub open spec fn distinct_endpoints(list: Seq<Seq<char>>) -> Seq<Seq<char>>
    decreases list.len(),
{
    if list.len() == 0 {
        Seq::empty()
    } else {
        let r = distinct_endpoints(list.drop_last());
        let n = normalize_endpoint_view(list.last());
        if n.len() > 0 && !r.contains(n) {
            r.push(n)
        } else {
            r
        }
    }
}

/// The endpoints that a query tries, in order: the configured endpoint,
/// then the fallbacks.
pub open spec fn endpoint_candidates_view(c: HttpSourceConfig) -> Seq<Seq<char>> {
    distinct_endpoints(seq![c.endpoint@] + c.endpoint_fallbacks.deep_view())
}

/// An endpoint trimmed and given a leading `/` (see
/// `normalize_endpoint_view`).
pub fn normalize_endpoint(endpoint: &str) -> (r: String)
    ensures
        r@ == normalize_endpoint_view(endpoint@),
{
    let t = trim_chars(&chars_of(endpoint));
    if t.len() == 0 {
        String::new()
    } else if t[0] == '/' {
        string_from(&t)
    } else {
        let s = string_from(&t);
        let r = concat("/", s.as_str());
        proof {
            reveal_strlit("/");
        }
        assert(r@ =~= seq!['/'] + t@);
        r
    }
}

/// The URL of `endpoint` under `base_url` (see `join_url_view`).
pub fn join_url(base_url: &str, endpoint: &str) -> (r: String)
    ensures
        r@ == join_url_view(base_url@, endpoint@),
{
    let b = strip_end_chars(&trim_chars(&chars_of(base_url)), '/');
    let e = strip_start_chars(&trim_chars(&chars_of(endpoint)), '/');
    let left = concat(string_from(&b).as_str(), "/");
    proof {
        reveal_strlit("/");
    }
    let r = concat(left.as_str(), string_from(&e).as_str());
    assert(r@ =~= join_url_view(base_url@, endpoint@));
    r
}

fn contains_string(list: &Vec<String>, s: &String) -> (r: bool)
    ensures
        r == list.deep_view().contains(s@),
{
    let mut i: usize = 0;
    let target = chars_of(s.as_str());
    while i < list.len()
        invariant
            i <= list@.len(),
            target@ == s@,
            forall|k: int| 0 <= k < i ==> list.deep_view()[k] != s@,
        decreases list@.len() - i,
    {
        if seq_eq(&chars_of(list[i].as_str()), &target) {
            assert(list.deep_view()[i as int] == s@);
            return true;
        }
        i = i + 1;
    }
    false
}

/// The endpoints that a query tries (see `endpoint_candidates_view`).
pub fn endpoint_candidates(config: &HttpSourceConfig) -> (r: Vec<String>)
    ensures
        r.deep_view() == endpoint_candidates_view(*config),
{
    let ghost list = seq![config.endpoint@] + config.endpoint_fallbacks.deep_view();
    let mut out: Vec<String> = Vec::new();
    let n0 = normalize_endpoint(config.endpoint.as_str());
    assert(list.take(0) =~= Seq::<Seq<char>>::empty());
    assert(list.take(1).drop_last() =~= list.take(0));
    assert(out.deep_view() =~= Seq::<Seq<char>>::empty());
    if !n0.as_str().is_empty() {
        out.push(n0);
        assert(out.deep_view() =~= seq![normalize_endpoint_view(config.endpoint@)]);
    }
    assert(list.take(1).last() == config.endpoint@);
    assert(distinct_endpoints(list.take(0)) =~= Seq::<Seq<char>>::empty());
    assert(!Seq::<Seq<char>>::empty().contains(normalize_endpoint_view(config.endpoint@)));
    assert(out.deep_view() == distinct_endpoints(list.take(1)));
    let mut i: usize = 0;
    while i < config.endpoint_fallbacks.len()
        invariant
            i <= config.endpoint_fallbacks@.len(),
            list == seq![config.endpoint@] + config.endpoint_fallbacks.deep_view(),
            out.deep_view() == distinct_endpoints(list.take(i + 1)),
        decreases config.endpoint_fallbacks@.len() - i,
    {
        let n = normalize_endpoint(config.endpoint_fallbacks[i].as_str());
        assert(list.take(i + 2).drop_last() =~= list.take(i + 1));
        assert(list.take(i + 2).last() == config.endpoint_fallbacks@[i as int]@);
        if !n.as_str().is_empty() && !contains_string(&out, &n) {
            let ghost before = out.deep_view();
            out.push(n);
            assert(out.deep_view() =~= before.push(normalize_endpoint_view(
                config.endpoint_fallbacks@[i as int]@,
            )));
        }
        i = i + 1;
    }
    assert(list.take(config.endpoint_fallbacks@.len() as int + 1) =~= list);
    out
}

// ------------------------------------------------------------------------
// Laws of endpoints
// ------------------------------------------------------------------------

proof fn lemma_trim_start_shape(s: Seq<char>)
    ensures
        trim_start(s).len() <= s.len(),
        trim_start(s).len() > 0 ==> !is_space(trim_start(s)[0]),
        trim_start(s) == s.skip(s.len() - trim_start(s).len()),
    decreases s.len(),
{
    if s.len() > 0 && is_space(s[0]) {
        lemma_trim_start_shape(s.drop_first());
        assert(s.drop_first().skip(s.drop_first().len() - trim_start(s).len()) =~= s.skip(
            s.len() - trim_start(s).len(),
        ));
    } else {
        assert(s.skip(0) =~= s);
    }
}

proof fn lemma_trim_end_shape(s: Seq<char>)
    ensures
        trim_end(s).len() <= s.len(),
        trim_end(s).len() > 0 ==> !is_space(trim_end(s).last()),
        trim_end(s) == s.take(trim_end(s).len() as int),
    decreases s.len(),
{
    if s.len() > 0 && is_space(s.last()) {
        lemma_trim_end_shape(s.drop_last());
        assert(s.drop_last().take(trim_end(s).len() as int) =~= s.take(trim_end(s).len() as int));
    } else {
        assert(s.take(s.len() as int) =~= s);
    }
}

proof fn lemma_trim_shape(s: Seq<char>)
    ensures
        trim(s).len() > 0 ==> !is_space(trim(s)[0]) && !is_space(trim(s).last()),
{
    let t = trim_start(s);
    lemma_trim_start_shape(s);
    lemma_trim_end_shape(t);
    if trim(s).len() > 0 {
        assert(trim(s)[0] == t[0]);
    }
}

proof fn lemma_trim_fixed(s: Seq<char>)
    requires
        s.len() > 0 ==> !is_space(s[0]) && !is_space(s.last()),
    ensures
        trim(s) == s,
{
    assert(trim_start(s) == s);
    assert(trim_end(s) == s);
}

/// Normalizing an endpoint twice gives what normalizing it once gives.
pub proof fn law_normalize_endpoint_idempotent(e: Seq<char>)
    ensures
        normalize_endpoint_view(normalize_endpoint_view(e)) == normalize_endpoint_view(e),
{
    let t = trim(e);
    lemma_trim_shape(e);
    let n = normalize_endpoint_view(e);
    if t.len() > 0 {
        if t[0] == '/' {
            lemma_trim_fixed(t);
        } else {
            let u = seq!['/'] + t;
            assert(u[0] == '/');
            assert(u.last() == t.last());
            assert(!is_space('/'));
            lemma_trim_fixed(u);
        }
    } else {
        lemma_trim_fixed(Seq::<char>::empty());
    }
}

proof fn lemma_distinct_endpoints(list: Seq<Seq<char>>)
    ensures
        ({
            let r = distinct_endpoints(list);
            &&& forall|i: int, j: int| 0 <= i < j < r.len() ==> r[i] != r[j]
            &&& forall|i: int| 0 <= i < r.len() ==> (#[trigger] r[i]).len() > 0 && r[i][0] == '/'
            &&& forall|k: int| 0 <= k < list.len() && normalize_endpoint_view(#[trigger] list[k]).len()
                > 0 ==> r.contains(normalize_endpoint_view(list[k]))
        }),
    decreases list.len(),
{
    if list.len() > 0 {
        let init = list.drop_last();
        lemma_distinct_endpoints(init);
        let r0 = distinct_endpoints(init);
        let n = normalize_endpoint_view(list.last());
        lemma_trim_shape(list.last());
        let r = distinct_endpoints(list);
        assert forall|k: int| 0 <= k < list.len() && normalize_endpoint_view(#[trigger] list[k]).len()
            > 0 implies r.contains(normalize_endpoint_view(list[k])) by {
            if k < init.len() {
                assert(init[k] == list[k]);
                let w = choose|w: int| 0 <= w < r0.len() && r0[w] == normalize_endpoint_view(init[k]);
                assert(r[w] == r0[w]);
            } else {
                if n.len() > 0 && !r0.contains(n) {
                    assert(r[r.len() - 1] == n);
                }
            }
        }
        if n.len() > 0 && !r0.contains(n) {
            assert forall|i: int| 0 <= i < r.len() implies (#[trigger] r[i]).len() > 0 && r[i][0] == '/' by {
                if i < r0.len() {
                    assert(r[i] == r0[i]);
                } else {
                    let t = trim(list.last());
                    if t[0] != '/' {
                        assert((seq!['/'] + t)[0] == '/');
                    }
                }
            }
            assert forall|i: int, j: int| 0 <= i < j < r.len() implies r[i] != r[j] by {
                if j == r.len() - 1 {
                    assert(r[i] == r0[i]);
                    if r0[i] == n {
                        assert(r0.contains(n));
                    }
                }
            }
        }
    }
}

/// The endpoints a query tries are distinct, each begins with `/`, and
/// every non-blank configured endpoint is among them, normalized.
pub proof fn law_endpoint_candidates_distinct(c: HttpSourceConfig)
    ensures
        ({
            let r = endpoint_candidates_view(c);
            let list = seq![c.endpoint@] + c.endpoint_fallbacks.deep_view();
            &&& forall|i: int, j: int| 0 <= i < j < r.len() ==> r[i] != r[j]
            &&& forall|i: int| 0 <= i < r.len() ==> (#[trigger] r[i]).len() > 0 && r[i][0] == '/'
            &&& forall|k: int| 0 <= k < list.len() && normalize_endpoint_view(#[trigger] list[k]).len()
                > 0 ==> r.contains(normalize_endpoint_view(list[k]))
        }),
{
    lemma_distinct_endpoints(seq![c.endpoint@] + c.endpoint_fallbacks.deep_view());
}

// ------------------------------------------------------------------------
// Snapshots
// ------------------------------------------------------------------------

/// The single placeholder window of a source that has no reading.
pub open spec fn empty_windows_view(c: HttpSourceConfig) -> Seq<WindowUsageView> {
    seq![
        WindowUsageView {
            id: c.window_id@,
            label: c.label@,
            used_percent: 0,
            remaining_percent: 0,
            value_label: None,
            resets_at: None,
            limit_label: Some(c.empty_limit_label@),
            bucket_id: Some(c.provider_id@),
            window_key: Some(c.window_key@),
        },
    ]
}

/// A snapshot without a reading: the placeholder window, a status and a
/// message.
pub open spec fn status_snapshot_view(
    c: HttpSourceConfig,
    status: ProviderUsageStatus,
    message: Seq<char>,
    updated_at: Seq<char>,
) -> UsageView {
    UsageView {
        provider: c.provider_id@,
        account_label: Some(c.label@),
        plan_label: Some(c.base_url@),
        credit_balance: None,
        status,
        windows: empty_windows_view(c),
        meter_items: Seq::empty(),
        updated_at: Some(updated_at),
        message: Some(message),
        diagnostics: None,
    }
}

/// `parts` joined with `sep` between neighbours.
pub open spec fn join_with(parts: Seq<Seq<char>>, sep: Seq<char>) -> Seq<char>
    decreases parts.len(),
{
    if parts.len() == 0 {
        Seq::empty()
    } else if parts.len() == 1 {
        parts[0]
    } else {
        join_with(parts.drop_last(), sep) + sep + parts.last()
    }
}

/// `parts.join(sep)`.
pub fn join_strings(parts: &Vec<String>, sep: &str) -> (r: String)
    ensures
        r@ == join_with(parts.deep_view(), sep@),
{
    let mut out = String::new();
    let mut i: usize = 0;
    assert(parts.deep_view().take(0) =~= Seq::<Seq<char>>::empty());
    while i < parts.len()
        invariant
            i <= parts@.len(),
            out@ == join_with(parts.deep_view().take(i as int), sep@),
        decreases parts@.len() - i,
    {
        assert(parts.deep_view().take(i + 1).drop_last() =~= parts.deep_view().take(i as int));
        assert(parts.deep_view().take(i + 1).last() == parts@[i as int]@);
        if i == 0 {
            out = parts[0].clone();
            assert(parts.deep_view().take(1) =~= seq![parts@[0]@]);
        } else {
            let with_sep = concat(out.as_str(), sep);
            out = concat(with_sep.as_str(), parts[i].as_str());
        }
        i = i + 1;
    }
    assert(parts.deep_view().take(parts@.len() as int) =~= parts.deep_view());
    out
}

/// The single placeholder window of a source that has no reading.
pub fn empty_windows(config: &HttpSourceConfig) -> (r: Vec<UsageWindow>)
    ensures
        r.deep_view() == empty_windows_view(*config),
{
    let mut v: Vec<UsageWindow> = Vec::new();
    v.push(UsageWindow {
        id: config.window_id.clone(),
        label: config.label.clone(),
        used_percent: 0,
        remaining_percent: 0,
        value_label: None,
        resets_at: None,
        limit_label: Some(config.empty_limit_label.clone()),
        bucket_id: Some(config.provider_id.clone()),
        window_key: Some(config.window_key.clone()),
    });
    assert(v.deep_view() =~= empty_windows_view(*config));
    v
}

fn status_snapshot_at(
    config: &HttpSourceConfig,
    status: ProviderUsageStatus,
    message: String,
    updated_at: String,
) -> (r: ProviderUsage)
    ensures
        r.deep_view() == status_snapshot_view(*config, status, message@, updated_at@),
{
    let items: Vec<crate::usage::MeterDisplayItem> = Vec::new();
    assert(items.deep_view() =~= Seq::<MeterItemView>::empty());
    ProviderUsage {
        provider: config.provider_id.clone(),
        account_label: Some(config.label.clone()),
        plan_label: Some(config.base_url.clone()),
        credit_balance: None,
        status,
        windows: empty_windows(config),
        meter_items: items,
        updated_at: Some(updated_at),
        message: Some(message),
        diagnostics: None,
    }
}

/// An `Unavailable` snapshot with the given message, taken at `updated_at`.
pub fn unavailable_snapshot_at(config: &HttpSourceConfig, message: String, updated_at: String) -> (r:
    ProviderUsage)
    ensures
        r.deep_view() == status_snapshot_view(
            *config,
            ProviderUsageStatus::Unavailable,
            message@,
            updated_at@,
        ),
{
    status_snapshot_at(config, ProviderUsageStatus::Unavailable, message, updated_at)
}

/// An `Unavailable` snapshot with the given message, taken now.
pub fn unavailable_snapshot(config: &HttpSourceConfig, message: String) -> (r: ProviderUsage)
    ensures
        r.deep_view().updated_at is Some,
        r.deep_view() == status_snapshot_view(
            *config,
            ProviderUsageStatus::Unavailable,
            message@,
            r.deep_view().updated_at->0,
        ),
{
    unavailable_snapshot_at(config, message, now_rfc3339())
}

/// An `Error` snapshot with the given message, taken at `updated_at`.
pub fn error_snapshot_at(config: &HttpSourceConfig, message: String, updated_at: String) -> (r:
    ProviderUsage)
    ensures
        r.deep_view() == status_snapshot_view(
            *config,
            ProviderUsageStatus::Error,
            message@,
            updated_at@,
        ),
{
    status_snapshot_at(config, ProviderUsageStatus::Error, message, updated_at)
}

/// An `Error` snapshot with the given message, taken now.
pub fn error_snapshot(config: &HttpSourceConfig, message: String) -> (r: ProviderUsage)
    ensures
        r.deep_view().updated_at is Some,
        r.deep_view() == status_snapshot_view(
            *config,
            ProviderUsageStatus::Error,
            message@,
            r.deep_view().updated_at->0,
        ),
{
    error_snapshot_at(config, message, now_rfc3339())
}

/// The message of a refused request: `<url> returned <status>; check the
/// API key.`
pub open spec fn unauthorized_message(url: Seq<char>, status: Seq<char>) -> Seq<char> {
    url + " returned "@ + status + "; check the API key."@
}

/// The snapshot of a source whose request was refused (HTTP 401 or 403):
/// `Unauthorized`, with the URL and the status text in the message.
pub fn unauthorized_snapshot_at(config: &HttpSourceConfig, url: &str, status: &str, updated_at: String) -> (r:
    ProviderUsage)
    ensures
        r.deep_view() == status_snapshot_view(
            *config,
            ProviderUsageStatus::Unauthorized,
            unauthorized_message(url@, status@),
            updated_at@,
        ),
{
    let a = concat(url, " returned ");
    let b = concat(a.as_str(), status);
    let message = concat(b.as_str(), "; check the API key.");
    status_snapshot_at(config, ProviderUsageStatus::Unauthorized, message, updated_at)
}

/// The snapshot of a refused request (see `unauthorized_snapshot_at`),
/// taken now.
pub fn unauthorized_snapshot(config: &HttpSourceConfig, url: &str, status: &str) -> (r: ProviderUsage)
    ensures
        r.deep_view().updated_at is Some,
        r.deep_view() == status_snapshot_view(
            *config,
            ProviderUsageStatus::Unauthorized,
            unauthorized_message(url@, status@),
            r.deep_view().updated_at->0,
        ),
{
    unauthorized_snapshot_at(config, url, status, now_rfc3339())
}

/// Why a source is not queried at all: it is disabled, or its API key is
/// blank.
pub open spec fn gate_message(c: HttpSourceConfig) -> Option<Seq<char>> {
    if !c.enabled {
        Some(c.label@ + " data source is disabled."@)
    } else if trim(c.api_key@).len() == 0 {
        Some(c.label@ + " API key is empty."@)
    } else {
        None
    }
}

/// The `Unavailable` snapshot of a source that is not queried at all
/// (see `gate_message`), or `None` when the source is to be queried.
pub fn gate_snapshot(config: &HttpSourceConfig) -> (r: Option<ProviderUsage>)
    ensures
        match gate_message(*config) {
            None => r is None,
            Some(m) => r matches Some(u) && u.deep_view().updated_at is Some && u.deep_view()
                == status_snapshot_view(
                *config,
                ProviderUsageStatus::Unavailable,
                m,
                u.deep_view().updated_at->0,
            ),
        },
{
    if !config.enabled {
        return Some(
            unavailable_snapshot(config, concat(config.label.as_str(), " data source is disabled.")),
        );
    }
    if trim_chars(&chars_of(config.api_key.as_str())).len() == 0 {
        return Some(unavailable_snapshot(config, concat(config.label.as_str(), " API key is empty.")));
    }
    None
}

/// The message of a query in which every endpoint failed.
pub open spec fn query_failed_message(c: HttpSourceConfig, failures: Seq<Seq<char>>) -> Seq<char> {
    c.label@ + " query failed. "@ + join_with(failures, "; "@)
}

/// The `Error` snapshot of a query in which every endpoint failed, with
/// the failures joined by `; `.
pub fn query_failed_snapshot(config: &HttpSourceConfig, failures: &Vec<String>) -> (r: ProviderUsage)
    ensures
        r.deep_view().updated_at is Some,
        r.deep_view() == status_snapshot_view(
            *config,
            ProviderUsageStatus::Error,
            query_failed_message(*config, failures.deep_view()),
            r.deep_view().updated_at->0,
        ),
{
    let head = concat(config.label.as_str(), " query failed. ");
    let joined = join_strings(failures, "; ");
    error_snapshot(config, concat(head.as_str(), joined.as_str()))
}

/// What an HTTP status means for a query.
#[derive(Clone, Copy, PartialEq, Eq, Structural, Debug)]
pub enum ResponseClass {
    /// 401 or 403: the query ends as `Unauthorized`.
    Refused,
    /// Any other status outside 200..=299: the next endpoint is tried.
    Failed,
    /// 200..=299: the reply is read.
    Success,
}

/// What an HTTP status code means for a query.
pub fn classify_status(code: u16) -> (r: ResponseClass)
    ensures
        r == (if code == 401 || code == 403 {
            ResponseClass::Refused
        } else if 200 <= code < 300 {
            ResponseClass::Success
        } else {
            ResponseClass::Failed
        }),
{
    if code == 401 || code == 403 {
        ResponseClass::Refused
    } else if 200 <= code && code < 300 {
        ResponseClass::Success
    } else {
        ResponseClass::Failed
    }
}

/// The message of a snapshot read through window rules: the label, the
/// first window's label, and its value label or remaining percent.
pub open spec fn windows_message(c: HttpSourceConfig, windows: Seq<WindowUsageView>) -> Seq<char> {
    if windows.len() > 0 {
        let w = windows[0];
        let value = match w.value_label {
            Some(v) => v,
            None => decimal(w.remaining_percent as nat) + "%"@,
        };
        c.label@ + " "@ + w.label + ": "@ + value
    } else {
        c.label@ + " updated."@
    }
}

/// A successful snapshot made of the windows read through window rules.
pub open spec fn windows_snapshot_view(
    c: HttpSourceConfig,
    windows: Seq<WindowUsageView>,
    updated_at: Seq<char>,
) -> UsageView {
    UsageView {
        provider: c.provider_id@,
        account_label: Some(c.label@),
        plan_label: Some(c.base_url@),
        credit_balance: None,
        status: ProviderUsageStatus::Normal,
        windows,
        meter_items: Seq::empty(),
        updated_at: Some(updated_at),
        message: Some(windows_message(c, windows)),
        diagnostics: None,
    }
}

/// A successful snapshot of windows read through window rules, taken at
/// `updated_at`.
pub fn ok_snapshot_with_windows_at(
    config: &HttpSourceConfig,
    windows: Vec<UsageWindow>,
    updated_at: String,
) -> (r: ProviderUsage)
    ensures
        r.deep_view() == windows_snapshot_view(*config, windows.deep_view(), updated_at@),
{
    let message = if windows.len() > 0 {
        let w = &windows[0];
        let value = match &w.value_label {
            Some(v) => v.clone(),
            None => concat(u64_to_decimal(w.remaining_percent as u64).as_str(), "%"),
        };
        let a = concat(config.label.as_str(), " ");
        let b = concat(a.as_str(), w.label.as_str());
        let c = concat(b.as_str(), ": ");
        concat(c.as_str(), value.as_str())
    } else {
        concat(config.label.as_str(), " updated.")
    };
    let items: Vec<crate::usage::MeterDisplayItem> = Vec::new();
    assert(items.deep_view() =~= Seq::<MeterItemView>::empty());
    ProviderUsage {
        provider: config.provider_id.clone(),
        account_label: Some(config.label.clone()),
        plan_label: Some(config.base_url.clone()),
        credit_balance: None,
        status: ProviderUsageStatus::Normal,
        windows,
        meter_items: items,
        updated_at: Some(updated_at),
        message: Some(message),
        diagnostics: None,
    }
}

/// A successful snapshot of windows read through window rules, taken now.
pub fn ok_snapshot_with_windows(config: &HttpSourceConfig, windows: Vec<UsageWindow>) -> (r:
    ProviderUsage)
    ensures
        r.deep_view().updated_at is Some,
        r.deep_view() == windows_snapshot_view(
            *config,
            windows.deep_view(),
            r.deep_view().updated_at->0,
        ),
{
    ok_snapshot_with_windows_at(config, windows, now_rfc3339())
}

/// A successful snapshot of one value read at a value path: one window
/// whose remaining share is `remaining_percent` (the used share is the
/// rest), labelled `value_label`, with the endpoint in its limit label.
pub open spec fn value_snapshot_view(
    c: HttpSourceConfig,
    amount: FloatBits,
    remaining_percent: u8,
    value_label: Seq<char>,
    resets_at: Option<Seq<char>>,
    endpoint: Seq<char>,
    updated_at: Seq<char>,
) -> UsageView {
    UsageView {
        provider: c.provider_id@,
        account_label: Some(c.label@),
        plan_label: Some(c.base_url@),
        credit_balance: Some(amount),
        status: ProviderUsageStatus::Normal,
        windows: seq![
            WindowUsageView {
                id: c.window_id@,
                label: c.label@,
                used_percent: if remaining_percent <= 100 {
                    (100 - remaining_percent) as u8
                } else {
                    0
                },
                remaining_percent,
                value_label: Some(value_label),
                resets_at,
                limit_label: Some(c.limit_label@ + " "@ + endpoint),
                bucket_id: Some(c.provider_id@),
                window_key: Some(c.window_key@),
            },
        ],
        meter_items: Seq::empty(),
        updated_at: Some(updated_at),
        message: Some(c.label@ + " current value: "@ + value_label),
        diagnostics: None,
    }
}

/// A successful snapshot of one value read at a value path (see
/// `value_snapshot_view`), taken at `updated_at`.
pub fn ok_snapshot_at(
    config: &HttpSourceConfig,
    amount: FloatBits,
    remaining_percent: u8,
    value_label: String,
    resets_at: Option<String>,
    endpoint: &str,
    updated_at: String,
) -> (r: ProviderUsage)
    ensures
        r.deep_view() == value_snapshot_view(
            *config,
            amount,
            remaining_percent,
            value_label@,
            resets_at.deep_view(),
            endpoint@,
            updated_at@,
        ),
{
    let used: u8 = if remaining_percent <= 100 {
        100 - remaining_percent
    } else {
        0
    };
    let limit = concat(concat(config.limit_label.as_str(), " ").as_str(), endpoint);
    let message = concat(concat(config.label.as_str(), " current value: ").as_str(), value_label.as_str());
    let mut windows: Vec<UsageWindow> = Vec::new();
    windows.push(UsageWindow {
        id: config.window_id.clone(),
        label: config.label.clone(),
        used_percent: used,
        remaining_percent,
        value_label: Some(value_label),
        resets_at,
        limit_label: Some(limit),
        bucket_id: Some(config.provider_id.clone()),
        window_key: Some(config.window_key.clone()),
    });
    let items: Vec<crate::usage::MeterDisplayItem> = Vec::new();
    assert(items.deep_view() =~= Seq::<MeterItemView>::empty());
    let r = ProviderUsage {
        provider: config.provider_id.clone(),
        account_label: Some(config.label.clone()),
        plan_label: Some(config.base_url.clone()),
        credit_balance: Some(amount),
        status: ProviderUsageStatus::Normal,
        windows,
        meter_items: items,
        updated_at: Some(updated_at),
        message: Some(message),
        diagnostics: None,
    };
    assert(r.windows.deep_view() =~= value_snapshot_view(
        *config,
        amount,
        remaining_percent,
        r.windows@[0].value_label.deep_view()->0,
        r.windows@[0].resets_at.deep_view(),
        endpoint@,
        updated_at@,
    ).windows);
    r
}

/// A successful snapshot of one value (see `value_snapshot_view`), taken
/// now.
pub fn ok_snapshot(
    config: &HttpSourceConfig,
    amount: FloatBits,
    remaining_percent: u8,
    value_label: String,
    resets_at: Option<String>,
    endpoint: &str,
) -> (r: ProviderUsage)
    ensures
        r.deep_view().updated_at is Some,
        r.deep_view() == value_snapshot_view(
            *config,
            amount,
            remaining_percent,
            value_label@,
            resets_at.deep_view(),
            endpoint@,
            r.deep_view().updated_at->0,
        ),
{
    ok_snapshot_at(config, amount, remaining_percent, value_label, resets_at, endpoint, now_rfc3339())
}

// ------------------------------------------------------------------------
// Transform results
// ------------------------------------------------------------------------

/// A number rounded to whole percent and clamped to 0..=100.
pub open spec fn clamp_percent(r: FloatReading) -> u8 {
    if r.rounded <= 0 {
        0
    } else if r.rounded >= 100 {
        100
    } else {
        r.rounded as u8
    }
}

/// A number rounded to whole percent and clamped to 0..=100.
pub fn percent_of(r: FloatReading) -> (p: u8)
    ensures
        p == clamp_percent(r),
        p <= 100,
{
    if r.rounded <= 0 {
        0
    } else if r.rounded >= 100 {
        100
    } else {
        r.rounded as u8
    }
}

/// The text of an optional member.
pub open spec fn opt_text(v: Option<Json>) -> Option<Seq<char>> {
    match v {
        Some(x) => x.text(),
        None => None,
    }
}

/// The numeric reading of an optional member (`number_like`).
pub open spec fn opt_number(v: Option<Json>) -> Option<FloatReading> {
    match v {
        Some(x) => x.numeric(),
        None => None,
    }
}

/// The text of an optional member, or `fallback`.
pub open spec fn text_or(v: Option<Json>, fallback: Seq<char>) -> Seq<char> {
    match opt_text(v) {
        Some(t) => t,
        None => fallback,
    }
}

/// The window that item `index` of a transform result describes, or
/// `None` when it has no numeric `remainingPercent`.
pub open spec fn transform_window_view(c: HttpSourceConfig, item: Json, index: nat) -> Option<
    WindowUsageView,
> {
    match opt_number(item.field("remainingPercent"@)) {
        None => None,
        Some(r) => {
            let remaining = clamp_percent(r);
            Some(
                WindowUsageView {
                    id: text_or(item.field("id"@), c.provider_id@ + "-"@ + decimal(index)),
                    label: text_or(item.field("label"@), c.label@),
                    used_percent: match opt_number(item.field("usedPercent"@)) {
                        Some(u) => clamp_percent(u),
                        None => (100 - remaining) as u8,
                    },
                    remaining_percent: remaining,
                    value_label: opt_text(item.field("valueLabel"@)),
                    resets_at: opt_text(item.field("resetsAt"@)),
                    limit_label: opt_text(item.field("limitLabel"@)),
                    bucket_id: Some(text_or(item.field("bucketId"@), c.provider_id@)),
                    window_key: opt_text(item.field("windowKey"@)),
                },
            )
        },
    }
}

/// The windows of a transform result, or the index of the first item
/// without a numeric `remainingPercent`.
pub open spec fn transform_windows_view(c: HttpSourceConfig, items: Seq<Json>) -> Result<
    Seq<WindowUsageView>,
    nat,
>
    decreases items.len(),
{
    if items.len() == 0 {
        Ok(Seq::empty())
    } else {
        match transform_windows_view(c, items.drop_last()) {
            Err(i) => Err(i),
            Ok(ws) => match transform_window_view(c, items.last(), (items.len() - 1) as nat) {
                None => Err((items.len() - 1) as nat),
                Some(w) => Ok(ws.push(w)),
            },
        }
    }
}

/// The snapshot that a transform result describes, or the error that
/// rejects it: no `windows` array, an item without a numeric
/// `remainingPercent`, or no windows at all.
pub open spec fn transform_usage_view(c: HttpSourceConfig, value: Json, updated_at: Seq<char>) -> Result<
    UsageView,
    Seq<char>,
> {
    match value.field("windows"@) {
        None => Err("transform result must include windows[]"@),
        Some(w) => match w.items() {
            None => Err("transform result must include windows[]"@),
            Some(items) => match transform_windows_view(c, items) {
                Err(i) => Err("windows["@ + decimal(i) + "].remainingPercent is required"@),
                Ok(ws) => if ws.len() == 0 {
                    Err("transform returned no windows"@)
                } else {
                    Ok(
                        UsageView {
                            provider: c.provider_id@,
                            account_label: Some(text_or(value.field("accountLabel"@), c.label@)),
                            plan_label: Some(text_or(value.field("planLabel"@), c.base_url@)),
                            credit_balance: match opt_number(value.field("creditBalance"@)) {
                                Some(r) => Some(FloatBits { bits: r.bits }),
                                None => None,
                            },
                            status: ProviderUsageStatus::Normal,
                            windows: ws,
                            meter_items: Seq::empty(),
                            updated_at: Some(updated_at),
                            message: Some(
                                text_or(value.field("message"@), c.label@ + " updated."@),
                            ),
                            diagnostics: None,
                        },
                    )
                },
            },
        },
    }
}

/// The text of an optional member, copied.
pub fn member_text(v: Option<&Json>) -> (r: Option<String>)
    ensures
        r.deep_view() == opt_text(opt_ref(v)),
{
    match v {
        Some(x) => match x.as_str() {
            Some(t) => Some(owned(t)),
            None => None,
        },
        None => None,
    }
}

fn member_text_or(v: Option<&Json>, fallback: String) -> (r: String)
    ensures
        r@ == text_or(opt_ref(v), fallback@),
{
    match member_text(v) {
        Some(t) => t,
        None => fallback,
    }
}

fn member_number(v: Option<&Json>) -> (r: Option<FloatReading>)
    ensures
        r == opt_number(opt_ref(v)),
{
    match v {
        Some(x) => x.number_like(),
        None => None,
    }
}

fn transform_window(config: &HttpSourceConfig, item: &Json, index: usize) -> (r: Option<UsageWindow>)
    ensures
        match r {
            Some(w) => transform_window_view(*config, *item, index as nat) == Some(w.deep_view()),
            None => transform_window_view(*config, *item, index as nat) is None,
        },
{
    let remaining = match member_number(item.get("remainingPercent")) {
        Some(r) => percent_of(r),
        None => {
            return None;
        },
    };
    let used = match member_number(item.get("usedPercent")) {
        Some(u) => percent_of(u),
        None => 100 - remaining,
    };
    let fallback_id = concat(concat(config.provider_id.as_str(), "-").as_str(), usize_to_decimal(index).as_str());
    Some(UsageWindow {
        id: member_text_or(item.get("id"), fallback_id),
        label: member_text_or(item.get("label"), config.label.clone()),
        used_percent: used,
        remaining_percent: remaining,
        value_label: member_text(item.get("valueLabel")),
        resets_at: member_text(item.get("resetsAt")),
        limit_label: member_text(item.get("limitLabel")),
        bucket_id: Some(member_text_or(item.get("bucketId"), config.provider_id.clone())),
        window_key: member_text(item.get("windowKey")),
    })
}

/// The snapshot that a transform result describes, taken at `updated_at`
/// (see `transform_usage_view`).
pub fn provider_usage_from_transform_at(config: &HttpSourceConfig, value: &Json, updated_at: String) -> (r:
    Result<ProviderUsage, String>)
    ensures
        match r {
            Ok(u) => transform_usage_view(*config, *value, updated_at@) == Ok::<UsageView, Seq<char>>(
                u.deep_view(),
            ),
            Err(e) => transform_usage_view(*config, *value, updated_at@) == Err::<UsageView, Seq<char>>(
                e@,
            ),
        },
{
    let items = match value.get("windows") {
        Some(w) => match w.as_array() {
            Some(items) => items,
            None => {
                return Err(owned("transform result must include windows[]"));
            },
        },
        None => {
            return Err(owned("transform result must include windows[]"));
        },
    };
    let mut windows: Vec<UsageWindow> = Vec::new();
    let mut i: usize = 0;
    assert(items@.take(0) =~= Seq::<Json>::empty());
    assert(windows.deep_view() =~= Seq::<WindowUsageView>::empty());
    while i < items.len()
        invariant
            i <= items@.len(),
            value.field("windows"@) is Some,
            value.field("windows"@)->0.items() == Some(items@),
            transform_windows_view(*config, items@.take(i as int)) == Ok::<Seq<WindowUsageView>, nat>(
                windows.deep_view(),
            ),
        decreases items@.len() - i,
    {
        assert(items@.take(i + 1).drop_last() =~= items@.take(i as int));
        assert(items@.take(i + 1).last() == items@[i as int]);
        match transform_window(config, &items[i], i) {
            None => {
                proof {
                    lemma_transform_windows_stop(*config, items@, i as int + 1, i as nat);
                }
                let a = concat("windows[", usize_to_decimal(i).as_str());
                return Err(concat(a.as_str(), "].remainingPercent is required"));
            },
            Some(w) => {
                let ghost before = windows.deep_view();
                windows.push(w);
                assert(windows.deep_view() =~= before.push(w.deep_view()));
            },
        }
        i = i + 1;
    }
    assert(items@.take(items@.len() as int) =~= items@);
    if windows.len() == 0 {
        return Err(owned("transform returned no windows"));
    }
    let credit_balance = match member_number(value.get("creditBalance")) {
        Some(r) => Some(FloatBits { bits: r.bits }),
        None => None,
    };
    let items_out: Vec<crate::usage::MeterDisplayItem> = Vec::new();
    assert(items_out.deep_view() =~= Seq::<MeterItemView>::empty());
    Ok(ProviderUsage {
        provider: config.provider_id.clone(),
        account_label: Some(member_text_or(value.get("accountLabel"), config.label.clone())),
        plan_label: Some(member_text_or(value.get("planLabel"), config.base_url.clone())),
        credit_balance,
        status: ProviderUsageStatus::Normal,
        windows,
        meter_items: items_out,
        updated_at: Some(updated_at),
        message: Some(member_text_or(value.get("message"), concat(config.label.as_str(), " updated."))),
        diagnostics: None,
    })
}

/// The snapshot that a transform result describes, taken now.
pub fn provider_usage_from_transform(config: &HttpSourceConfig, value: &Json) -> (r: Result<
    ProviderUsage,
    String,
>)
    ensures
        match r {
            Ok(u) => u.deep_view().updated_at is Some && transform_usage_view(
                *config,
                *value,
                u.deep_view().updated_at->0,
            ) == Ok::<UsageView, Seq<char>>(u.deep_view()),
            Err(e) => forall|t: Seq<char>|
                transform_usage_view(*config, *value, t) == Err::<UsageView, Seq<char>>(e@),
        },
{
    let now = now_rfc3339();
    let r = provider_usage_from_transform_at(config, value, now);
    proof {
        if let Err(e) = &r {
            assert forall|t: Seq<char>| transform_usage_view(*config, *value, t) == Err::<
                UsageView,
                Seq<char>,
            >(e@) by {
                lemma_transform_error_timeless(*config, *value, now@, t);
            }
        }
    }
    r
}

proof fn lemma_transform_error_timeless(c: HttpSourceConfig, value: Json, a: Seq<char>, b: Seq<char>)
    ensures
        transform_usage_view(c, value, a) is Err ==> transform_usage_view(c, value, b)
            == transform_usage_view(c, value, a),
{
}

proof fn lemma_transform_windows_stop(c: HttpSourceConfig, items: Seq<Json>, k: int, e: nat)
    requires
        0 < k <= items.len(),
        transform_windows_view(c, items.take(k)) == Err::<Seq<WindowUsageView>, nat>(e),
    ensures
        transform_windows_view(c, items) == Err::<Seq<WindowUsageView>, nat>(e),
    decreases items.len() - k,
{
    if k < items.len() {
        assert(items.take(k + 1).drop_last() =~= items.take(k));
        lemma_transform_windows_stop(c, items, k + 1, e);
    } else {
        assert(items.take(k) =~= items);
    }
}

// ------------------------------------------------------------------------
// Window rules
// ------------------------------------------------------------------------

/// A window rule together with the part of the reply it reads.
#[derive(Debug)]
pub struct WindowTarget<'a> {
    pub root: &'a Json,
    pub rule: WindowRule,
}

impl<'a> DeepView for WindowTarget<'a> {
    type V = (Json, WindowView);

    open spec fn deep_view(&self) -> (Json, WindowView) {
        (*self.root, self.rule.deep_view())
    }
}

impl WindowRule {
    /// A copy of this rule.
    pub fn copy(&self) -> (r: WindowRule)
        ensures
            r.deep_view() == self.deep_view(),
    {
        WindowRule {
            id: self.id.clone(),
            label: self.label.clone(),
            root_path: self.root_path.clone(),
            limit_path: self.limit_path.clone(),
            remaining_path: self.remaining_path.clone(),
            used_path: copy_opt_string(&self.used_path),
            reset_path: copy_opt_string(&self.reset_path),
            limit_label: copy_opt_string(&self.limit_label),
            window_key: copy_opt_string(&self.window_key),
        }
    }
}

/// The window targets of the plain window rules: each rule reads the
/// reply itself when its root path is blank, else what its root path
/// selects (rules whose root is missing are skipped); `None` when a root
/// path has a malformed segment.
pub open spec fn rule_targets(raw: Json, rules: Seq<WindowView>) -> Option<Seq<(Json, WindowView)>>
    decreases rules.len(),
{
    if rules.len() == 0 {
        Some(Seq::empty())
    } else {
        match rule_targets(raw, rules.drop_last()) {
            None => None,
            Some(ts) => {
                let r = rules.last();
                if trim(r.root_path).len() == 0 {
                    Some(ts.push((raw, r)))
                } else {
                    match read_path(raw, r.root_path) {
                        PathRead::Malformed => None,
                        PathRead::Missing => Some(ts),
                        PathRead::Found(x) => Some(ts.push((x, r))),
                    }
                }
            },
        }
    }
}

/// The window rule for item `index` of an array rule: id and window key
/// numbered from 0, label numbered from 1.
pub open spec fn item_rule(a: ArrayWindowView, index: nat) -> WindowView {
    WindowView {
        id: a.id_prefix + "-"@ + decimal(index),
        label: a.label + " "@ + decimal(index + 1),
        root_path: Seq::empty(),
        limit_path: a.limit_path,
        remaining_path: a.remaining_path,
        used_path: a.used_path,
        reset_path: a.reset_path,
        limit_label: a.limit_label,
        window_key: Some(
            (match a.window_key_prefix {
                Some(p) => p,
                None => a.id_prefix,
            }) + "-"@ + decimal(index),
        ),
    }
}

/// The window targets of the items of one array rule.
pub open spec fn item_targets(a: ArrayWindowView, items: Seq<Json>) -> Option<Seq<(Json, WindowView)>>
    decreases items.len(),
{
    if items.len() == 0 {
        Some(Seq::empty())
    } else {
        match item_targets(a, items.drop_last()) {
            None => None,
            Some(ts) => {
                let k = (items.len() - 1) as nat;
                let item = items.last();
                if trim(a.item_root_path).len() == 0 {
                    Some(ts.push((item, item_rule(a, k))))
                } else {
                    match read_path(item, a.item_root_path) {
                        PathRead::Malformed => None,
                        PathRead::Missing => Some(ts),
                        PathRead::Found(x) => Some(ts.push((x, item_rule(a, k)))),
                    }
                }
            },
        }
    }
}

/// The window targets of the array rules, rule by rule (rules whose path
/// selects no array are skipped).
pub open spec fn array_targets(raw: Json, rules: Seq<ArrayWindowView>) -> Option<
    Seq<(Json, WindowView)>,
>
    decreases rules.len(),
{
    if rules.len() == 0 {
        Some(Seq::empty())
    } else {
        match array_targets(raw, rules.drop_last()) {
            None => None,
            Some(ts) => match read_path(raw, rules.last().array_path) {
                PathRead::Malformed => None,
                PathRead::Missing => Some(ts),
                PathRead::Found(x) => match x.items() {
                    None => Some(ts),
                    Some(items) => match item_targets(rules.last(), items) {
                        None => None,
                        Some(more) => Some(ts + more),
                    },
                },
            },
        }
    }
}

/// All window targets of a reply: those of the plain rules, then those
/// of the array rules; `None` when a path has a malformed segment.
pub open spec fn window_targets_view(c: HttpSourceConfig, raw: Json) -> Option<Seq<(Json, WindowView)>> {
    match rule_targets(raw, c.window_rules.deep_view()) {
        None => None,
        Some(a) => match array_targets(raw, c.array_window_rules.deep_view()) {
            None => None,
            Some(b) => Some(a + b),
        },
    }
}

fn is_blank(s: &str) -> (r: bool)
    ensures
        r == (trim(s@).len() == 0),
{
    trim_chars(&chars_of(s)).len() == 0
}

fn push_target<'a>(out: &mut Vec<WindowTarget<'a>>, root: &'a Json, rule: WindowRule)
    ensures
        final(out).deep_view() == old(out).deep_view().push((*root, rule.deep_view())),
{
    let ghost before = out.deep_view();
    out.push(WindowTarget { root, rule });
    assert(out.deep_view() =~= before.push((*root, rule.deep_view())));
}

fn rule_targets_exec<'a>(raw: &'a Json, rules: &Vec<WindowRule>) -> (r: Result<
    Vec<WindowTarget<'a>>,
    MalformedSegment,
>)
    ensures
        match r {
            Ok(v) => rule_targets(*raw, rules.deep_view()) == Some(v.deep_view()),
            Err(_) => rule_targets(*raw, rules.deep_view()) is None,
        },
{
    let mut out: Vec<WindowTarget<'a>> = Vec::new();
    let mut i: usize = 0;
    assert(rules.deep_view().take(0) =~= Seq::<WindowView>::empty());
    assert(out.deep_view() =~= Seq::<(Json, WindowView)>::empty());
    while i < rules.len()
        invariant
            i <= rules@.len(),
            rule_targets(*raw, rules.deep_view().take(i as int)) == Some(out.deep_view()),
        decreases rules@.len() - i,
    {
        let ghost pre = rules.deep_view().take(i as int);
        assert(rules.deep_view().take(i + 1).drop_last() =~= pre);
        assert(rules.deep_view().take(i + 1).last() == rules@[i as int].deep_view());
        let rule = &rules[i];
        if is_blank(rule.root_path.as_str()) {
            push_target(&mut out, raw, rule.copy());
        } else {
            match value_at_path(raw, rule.root_path.as_str()) {
                Err(e) => {
                    proof {
                        lemma_rule_targets_none(*raw, rules.deep_view(), i as int + 1);
                    }
                    return Err(e);
                },
                Ok(None) => {},
                Ok(Some(root)) => {
                    push_target(&mut out, root, rule.copy());
                },
            }
        }
        i = i + 1;
    }
    assert(rules.deep_view().take(rules@.len() as int) =~= rules.deep_view());
    Ok(out)
}

proof fn lemma_rule_targets_none(raw: Json, rules: Seq<WindowView>, k: int)
    requires
        0 <= k <= rules.len(),
        rule_targets(raw, rules.take(k)) is None,
    ensures
        rule_targets(raw, rules) is None,
    decreases rules.len() - k,
{
    if k < rules.len() {
        assert(rules.take(k + 1).drop_last() =~= rules.take(k));
        lemma_rule_targets_none(raw, rules, k + 1);
    } else {
        assert(rules.take(k) =~= rules);
    }
}

proof fn lemma_item_targets_none(a: ArrayWindowView, items: Seq<Json>, k: int)
    requires
        0 <= k <= items.len(),
        item_targets(a, items.take(k)) is None,
    ensures
        item_targets(a, items) is None,
    decreases items.len() - k,
{
    if k < items.len() {
        assert(items.take(k + 1).drop_last() =~= items.take(k));
        lemma_item_targets_none(a, items, k + 1);
    } else {
        assert(items.take(k) =~= items);
    }
}

proof fn lemma_array_targets_none(raw: Json, rules: Seq<ArrayWindowView>, k: int)
    requires
        0 <= k <= rules.len(),
        array_targets(raw, rules.take(k)) is None,
    ensures
        array_targets(raw, rules) is None,
    decreases rules.len() - k,
{
    if k < rules.len() {
        assert(rules.take(k + 1).drop_last() =~= rules.take(k));
        lemma_array_targets_none(raw, rules, k + 1);
    } else {
        assert(rules.take(k) =~= rules);
    }
}

fn item_rule_exec(a: &ArrayWindowRule, index: usize) -> (r: WindowRule)
    requires
        index < usize::MAX,
    ensures
        r.deep_view() == item_rule(a.deep_view(), index as nat),
{
    let n = usize_to_decimal(index);
    let n1 = usize_to_decimal(index + 1);
    let key_base = match &a.window_key_prefix {
        Some(p) => p.clone(),
        None => a.id_prefix.clone(),
    };
    WindowRule {
        id: concat(concat(a.id_prefix.as_str(), "-").as_str(), n.as_str()),
        label: concat(concat(a.label.as_str(), " ").as_str(), n1.as_str()),
        root_path: String::new(),
        limit_path: a.limit_path.clone(),
        remaining_path: a.remaining_path.clone(),
        used_path: copy_opt_string(&a.used_path),
        reset_path: copy_opt_string(&a.reset_path),
        limit_label: copy_opt_string(&a.limit_label),
        window_key: Some(concat(concat(key_base.as_str(), "-").as_str(), n.as_str())),
    }
}

fn item_targets_exec<'a>(a: &ArrayWindowRule, items: &'a Vec<Json>) -> (r: Result<
    Vec<WindowTarget<'a>>,
    MalformedSegment,
>)
    ensures
        match r {
            Ok(v) => item_targets(a.deep_view(), items@) == Some(v.deep_view()),
            Err(_) => item_targets(a.deep_view(), items@) is None,
        },
{
    let mut out: Vec<WindowTarget<'a>> = Vec::new();
    let mut i: usize = 0;
    assert(items@.take(0) =~= Seq::<Json>::empty());
    assert(out.deep_view() =~= Seq::<(Json, WindowView)>::empty());
    let blank_root = is_blank(a.item_root_path.as_str());
    while i < items.len()
        invariant
            i <= items@.len(),
            blank_root == (trim(a.item_root_path@).len() == 0),
            item_targets(a.deep_view(), items@.take(i as int)) == Some(out.deep_view()),
        decreases items@.len() - i,
    {
        assert(items@.take(i + 1).drop_last() =~= items@.take(i as int));
        assert(items@.take(i + 1).last() == items@[i as int]);
        let item = &items[i];
        if blank_root {
            push_target(&mut out, item, item_rule_exec(a, i));
        } else {
            match value_at_path(item, a.item_root_path.as_str()) {
                Err(e) => {
                    proof {
                        lemma_item_targets_none(a.deep_view(), items@, i as int + 1);
                    }
                    return Err(e);
                },
                Ok(None) => {},
                Ok(Some(root)) => {
                    push_target(&mut out, root, item_rule_exec(a, i));
                },
            }
        }
        i = i + 1;
    }
    assert(items@.take(items@.len() as int) =~= items@);
    Ok(out)
}

fn array_targets_exec<'a>(raw: &'a Json, rules: &Vec<ArrayWindowRule>) -> (r: Result<
    Vec<WindowTarget<'a>>,
    MalformedSegment,
>)
    ensures
        match r {
            Ok(v) => array_targets(*raw, rules.deep_view()) == Some(v.deep_view()),
            Err(_) => array_targets(*raw, rules.deep_view()) is None,
        },
{
    let mut out: Vec<WindowTarget<'a>> = Vec::new();
    let mut i: usize = 0;
    assert(rules.deep_view().take(0) =~= Seq::<ArrayWindowView>::empty());
    assert(out.deep_view() =~= Seq::<(Json, WindowView)>::empty());
    while i < rules.len()
        invariant
            i <= rules@.len(),
            array_targets(*raw, rules.deep_view().take(i as int)) == Some(out.deep_view()),
        decreases rules@.len() - i,
    {
        assert(rules.deep_view().take(i + 1).drop_last() =~= rules.deep_view().take(i as int));
        assert(rules.deep_view().take(i + 1).last() == rules@[i as int].deep_view());
        let rule = &rules[i];
        match value_at_path(raw, rule.array_path.as_str()) {
            Err(e) => {
                proof {
                    lemma_array_targets_none(*raw, rules.deep_view(), i as int + 1);
                }
                return Err(e);
            },
            Ok(None) => {},
            Ok(Some(found)) => {
                if let Some(items) = found.as_array() {
                    match item_targets_exec(rule, items) {
                        Err(e) => {
                            proof {
                                lemma_array_targets_none(*raw, rules.deep_view(), i as int + 1);
                            }
                            return Err(e);
                        },
                        Ok(more) => {
                            let ghost before = out.deep_view();
                            let mut more = more;
                            out.append(&mut more);
                            assert(out.deep_view() =~= before + item_targets(
                                rule.deep_view(),
                                items@,
                            )->0);
                        },
                    }
                }
            },
        }
        i = i + 1;
    }
    assert(rules.deep_view().take(rules@.len() as int) =~= rules.deep_view());
    Ok(out)
}

/// The window rules of a source paired with what they read in `raw`
/// (see `window_targets_view`); `Err` when a path has a malformed segment.
pub fn window_targets<'a>(config: &HttpSourceConfig, raw: &'a Json) -> (r: Result<
    Vec<WindowTarget<'a>>,
    MalformedSegment,
>)
    ensures
        match r {
            Ok(v) => window_targets_view(*config, *raw) == Some(v.deep_view()),
            Err(_) => window_targets_view(*config, *raw) is None,
        },
{
    let mut first = rule_targets_exec(raw, &config.window_rules)?;
    let mut second = array_targets_exec(raw, &config.array_window_rules)?;
    let ghost a = first.deep_view();
    first.append(&mut second);
    assert(first.deep_view() =~= a + array_targets(*raw, config.array_window_rules.deep_view())->0);
    Ok(first)
}

/// The window that a rule describes, given its remaining and used shares:
/// id `<provider>-<rule id>`, the rule's label, the remaining share as its
/// value label, the reset time at the rule's reset path if that is a
/// string, and the rule's window key (else its id).
pub open spec fn rule_window_view(
    c: HttpSourceConfig,
    value: Json,
    rule: WindowView,
    remaining_percent: u8,
    used_percent: u8,
) -> Option<WindowUsageView> {
    let resets = match rule.reset_path {
        None => Some(None),
        Some(p) => match read_path(value, p) {
            PathRead::Malformed => None,
            PathRead::Missing => Some(None),
            PathRead::Found(x) => Some(x.text()),
        },
    };
    match resets {
        None => None,
        Some(resets_at) => Some(
            WindowUsageView {
                id: c.provider_id@ + "-"@ + rule.id,
                label: rule.label,
                used_percent,
                remaining_percent,
                value_label: Some(decimal(remaining_percent as nat) + "%"@),
                resets_at,
                limit_label: rule.limit_label,
                bucket_id: Some(c.provider_id@),
                window_key: Some(
                    match rule.window_key {
                        Some(k) => k,
                        None => rule.id,
                    },
                ),
            },
        ),
    }
}

/// The window that a rule describes (see `rule_window_view`); `Err` when
/// the reset path has a malformed segment.
pub fn rule_window(
    config: &HttpSourceConfig,
    value: &Json,
    rule: &WindowRule,
    remaining_percent: u8,
    used_percent: u8,
) -> (r: Result<UsageWindow, MalformedSegment>)
    ensures
        match r {
            Ok(w) => rule_window_view(*config, *value, rule.deep_view(), remaining_percent, used_percent)
                == Some(w.deep_view()),
            Err(_) => rule_window_view(
                *config,
                *value,
                rule.deep_view(),
                remaining_percent,
                used_percent,
            ) is None,
        },
{
    let resets_at = match &rule.reset_path {
        None => None,
        Some(p) => match value_at_path(value, p.as_str()) {
            Err(e) => {
                return Err(e);
            },
            Ok(None) => None,
            Ok(Some(x)) => match x.as_str() {
                Some(t) => Some(owned(t)),
                None => None,
            },
        },
    };
    Ok(UsageWindow {
        id: concat(concat(config.provider_id.as_str(), "-").as_str(), rule.id.as_str()),
        label: rule.label.clone(),
        used_percent,
        remaining_percent,
        value_label: Some(concat(u64_to_decimal(remaining_percent as u64).as_str(), "%")),
        resets_at,
        limit_label: copy_opt_string(&rule.limit_label),
        bucket_id: Some(config.provider_id.clone()),
        window_key: Some(
            match &rule.window_key {
                Some(k) => k.clone(),
                None => rule.id.clone(),
            },
        ),
    })
}

// ------------------------------------------------------------------------
// The query loop
// ------------------------------------------------------------------------

/// Whether replies are handed to the source's transform script: it is not
/// blank.
pub open spec fn uses_transform_view(c: HttpSourceConfig) -> bool {
    trim(c.transform_script@).len() > 0
}

/// Whether replies are handed to the source's transform script.
pub fn uses_transform(config: &HttpSourceConfig) -> (r: bool)
    ensures
        r == uses_transform_view(*config),
{
    trim_chars(&chars_of(config.transform_script.as_str())).len() > 0
}

/// What querying one endpoint came to.
#[derive(Debug)]
pub enum EndpointOutcome {
    /// The request could not be sent; the text says why.
    SendFailed(String),
    /// The server refused the key (HTTP 401 or 403); the status text.
    Refused(String),
    /// Any other status outside 2xx; the status text.
    HttpFailed(String),
    /// The body is not JSON; the text says why.
    InvalidJson(String),
    /// The transform script failed; the text says why.
    TransformFailed(String),
    /// Neither a window rule nor a value path read anything.
    NoValue,
    /// The reply was read: the query ends with this snapshot.
    Read(ProviderUsage),
}

/// The failure noted for an endpoint, where its outcome lets the query go
/// on to the next endpoint.
pub open spec fn outcome_note(url: Seq<char>, o: EndpointOutcome) -> Option<Seq<char>> {
    match o {
        EndpointOutcome::SendFailed(e) => Some(url + ": "@ + e@),
        EndpointOutcome::HttpFailed(s) => Some(url + ": HTTP "@ + s@),
        EndpointOutcome::InvalidJson(e) => Some(url + ": invalid JSON: "@ + e@),
        EndpointOutcome::TransformFailed(e) => Some(url + ": transform failed: "@ + e@),
        EndpointOutcome::NoValue => Some(url + ": no configured value path matched"@),
        EndpointOutcome::Refused(_) => None,
        EndpointOutcome::Read(_) => None,
    }
}

/// Takes the outcome of the endpoint at `url`: a refused key ends the query
/// as `Unauthorized`, a reading ends it with that snapshot, and any other
/// outcome is noted in `failures` and the query goes on (`None`).
pub fn record_outcome(
    config: &HttpSourceConfig,
    url: &str,
    outcome: EndpointOutcome,
    failures: &mut Vec<String>,
) -> (r: Option<ProviderUsage>)
    ensures
        match outcome_note(url@, outcome) {
            Some(n) => r is None && final(failures).deep_view() == old(failures).deep_view().push(n),
            None => final(failures).deep_view() == old(failures).deep_view() && match outcome {
                EndpointOutcome::Read(u) => r matches Some(x) && x.deep_view() == u.deep_view(),
                EndpointOutcome::Refused(s) => r matches Some(x) && x.deep_view().updated_at is Some
                    && x.deep_view() == status_snapshot_view(
                    *config,
                    ProviderUsageStatus::Unauthorized,
                    unauthorized_message(url@, s@),
                    x.deep_view().updated_at->0,
                ),
                _ => false,
            },
        },
{
    let ghost before = failures.deep_view();
    let note = match outcome {
        EndpointOutcome::Read(u) => {
            return Some(u);
        },
        EndpointOutcome::Refused(s) => {
            return Some(unauthorized_snapshot(config, url, s.as_str()));
        },
        EndpointOutcome::SendFailed(e) => concat(concat(url, ": ").as_str(), e.as_str()),
        EndpointOutcome::HttpFailed(s) => concat(concat(url, ": HTTP ").as_str(), s.as_str()),
        EndpointOutcome::InvalidJson(e) => concat(concat(url, ": invalid JSON: ").as_str(), e.as_str()),
        EndpointOutcome::TransformFailed(e) => concat(
            concat(url, ": transform failed: ").as_str(),
            e.as_str(),
        ),
        EndpointOutcome::NoValue => concat(url, ": no configured value path matched"),
    };
    failures.push(note);
    assert(failures.deep_view() =~= before.push(failures@.last()@));
    None
}

// ------------------------------------------------------------------------
// Single values
// ------------------------------------------------------------------------

/// The first value path that reads a number: its reading and its divisor;
/// `None` (outside) when a path before it has a malformed segment.
pub open spec fn number_search(value: Json, rules: Seq<(Seq<char>, FloatBits)>) -> Option<
    Option<(FloatReading, FloatBits)>,
>
    decreases rules.len(),
{
    if rules.len() == 0 {
        Some(None)
    } else {
        match read_path(value, rules[0].0) {
            PathRead::Malformed => None,
            PathRead::Found(x) if x.numeric() is Some => Some(Some((x.numeric()->0, rules[0].1))),
            _ => number_search(value, rules.drop_first()),
        }
    }
}

/// The first value path of `rules` that reads a number, with its divisor
/// (see `number_search`); `Err` when a path has a malformed segment.
pub fn first_number(value: &Json, rules: &Vec<ExtractionRule>) -> (r: Result<
    Option<(FloatReading, FloatBits)>,
    MalformedSegment,
>)
    ensures
        match r {
            Ok(x) => number_search(*value, rules.deep_view()) == Some(x),
            Err(_) => number_search(*value, rules.deep_view()) is None,
        },
{
    let ghost all = rules.deep_view();
    let mut i: usize = 0;
    assert(all.skip(0) =~= all);
    while i < rules.len()
        invariant
            i <= rules@.len(),
            all == rules.deep_view(),
            number_search(*value, all) == number_search(*value, all.skip(i as int)),
        decreases rules@.len() - i,
    {
        assert(all.skip(i as int).drop_first() =~= all.skip(i + 1));
        assert(all.skip(i as int)[0] == rules@[i as int].deep_view());
        match value_at_path(value, rules[i].path.as_str()) {
            Err(e) => {
                return Err(e);
            },
            Ok(Some(x)) => {
                if let Some(n) = x.number_like() {
                    return Ok(Some((n, rules[i].divisor)));
                }
            },
            Ok(None) => {},
        }
        i = i + 1;
    }
    assert(all.skip(i as int) =~= Seq::<(Seq<char>, FloatBits)>::empty());
    Ok(None)
}

/// A value read as text: a string, or a number to be written out.
#[derive(Debug)]
pub enum TextOrNumber {
    Text(String),
    Number(FloatReading),
}

/// A `TextOrNumber` as a plain value.
pub open spec fn text_or_number_view(t: TextOrNumber) -> Result<Seq<char>, FloatReading> {
    match t {
        TextOrNumber::Text(s) => Ok(s@),
        TextOrNumber::Number(n) => Err(n),
    }
}

/// The first path that reads a string or a number: the string, or the
/// number (`Err` inside); `None` (outside) when a path before it has a
/// malformed segment.
pub open spec fn text_search(value: Json, paths: Seq<Seq<char>>) -> Option<
    Option<Result<Seq<char>, FloatReading>>,
>
    decreases paths.len(),
{
    if paths.len() == 0 {
        Some(None)
    } else {
        match read_path(value, paths[0]) {
            PathRead::Malformed => None,
            PathRead::Found(x) if x.text() is Some => Some(Some(Ok(x.text()->0))),
            PathRead::Found(x) if x.numeric() is Some => Some(Some(Err(x.numeric()->0))),
            _ => text_search(value, paths.drop_first()),
        }
    }
}

/// The first of `paths` that reads a string or a number (see
/// `text_search`); `Err` when a path has a malformed segment.
pub fn first_text(value: &Json, paths: &Vec<String>) -> (r: Result<Option<TextOrNumber>, MalformedSegment>)
    ensures
        match r {
            Ok(Some(t)) => text_search(*value, paths.deep_view()) == Some(
                Some(text_or_number_view(t)),
            ),
            Ok(None) => text_search(*value, paths.deep_view()) == Some(
                None::<Result<Seq<char>, FloatReading>>,
            ),
            Err(_) => text_search(*value, paths.deep_view()) is None,
        },
{
    let ghost all = paths.deep_view();
    let mut i: usize = 0;
    assert(all.skip(0) =~= all);
    while i < paths.len()
        invariant
            i <= paths@.len(),
            all == paths.deep_view(),
            text_search(*value, all) == text_search(*value, all.skip(i as int)),
        decreases paths@.len() - i,
    {
        assert(all.skip(i as int).drop_first() =~= all.skip(i + 1));
        assert(all.skip(i as int)[0] == paths@[i as int]@);
        match value_at_path(value, paths[i].as_str()) {
            Err(e) => {
                return Err(e);
            },
            Ok(Some(x)) => {
                if let Some(s) = x.as_str() {
                    return Ok(Some(TextOrNumber::Text(owned(s))));
                }
                if let Some(n) = x.number_like() {
                    return Ok(Some(TextOrNumber::Number(n)));
                }
            },
            Ok(None) => {},
        }
        i = i + 1;
    }
    assert(all.skip(i as int) =~= Seq::<Seq<char>>::empty());
    Ok(None)
}

/// How an amount of money is prefixed: `$` for USD (and where no currency
/// is known), `CNY ` for CNY, any other currency code as it is.
pub open spec fn currency_symbol_view(currency: Option<Seq<char>>) -> Seq<char> {
    let code = match currency {
        Some(c) => c,
        None => "USD"@,
    };
    if code == "USD"@ {
        "$"@
    } else if code == "CNY"@ {
        "CNY "@
    } else {
        code
    }
}

/// How an amount of money is prefixed (see `currency_symbol_view`).
pub fn currency_symbol(currency: Option<&str>) -> (r: String)
    ensures
        r@ == currency_symbol_view(
            match currency {
                Some(c) => Some(c@),
                None => None,
            },
        ),
{
    let code = match currency {
        Some(c) => c,
        None => "USD",
    };
    if str_eq(code, "USD") {
        owned("$")
    } else if str_eq(code, "CNY") {
        owned("CNY ")
    } else {
        owned(code)
    }
}


/// A window read through a window rule carries the rule's label, an id
/// made of the provider and the rule's id, the given shares, and the
/// rule's limit label; an array rule's item `k` is labelled with the array
/// rule's label and the number `k + 1`.
pub proof fn law_rule_window_labels(
    c: HttpSourceConfig,
    value: Json,
    rule: WindowView,
    remaining_percent: u8,
    used_percent: u8,
    a: ArrayWindowView,
    k: nat,
)
    ensures
        rule_window_view(c, value, rule, remaining_percent, used_percent) matches Some(w) ==> {
            &&& w.label == rule.label
            &&& w.id == c.provider_id@ + "-"@ + rule.id
            &&& w.remaining_percent == remaining_percent
            &&& w.used_percent == used_percent
            &&& w.limit_label == rule.limit_label
            &&& w.bucket_id == Some(c.provider_id@)
        },
        item_rule(a, k).label == a.label + " "@ + decimal(k + 1),
        item_rule(a, k).limit_path == a.limit_path,
        item_rule(a, k).remaining_path == a.remaining_path,
{
}

proof fn lemma_transform_windows_each(c: HttpSourceConfig, items: Seq<Json>)
    ensures
        transform_windows_view(c, items) matches Ok(ws) ==> ws.len() == items.len() && forall|k: int|
            0 <= k < ws.len() ==> transform_window_view(c, items[k], k as nat) == Some(
                #[trigger] ws[k],
            ),
    decreases items.len(),
{
    if items.len() > 0 {
        lemma_transform_windows_each(c, items.drop_last());
        if let Ok(ws) = transform_windows_view(c, items) {
            let prev = transform_windows_view(c, items.drop_last());
            assert(prev is Ok);
            let pws = prev->Ok_0;
            assert forall|k: int| 0 <= k < ws.len() implies transform_window_view(
                c,
                items[k],
                k as nat,
            ) == Some(#[trigger] ws[k]) by {
                if k < ws.len() - 1 {
                    assert(ws[k] == pws[k]);
                    assert(items.drop_last()[k] == items[k]);
                }
            }
        }
    }
}

/// Every item of a transform result's `windows` gives one window, in order:
/// its value label, reset time, limit label and window key are the item's
/// string members `valueLabel`, `resetsAt`, `limitLabel` and `windowKey`
/// (none where the member is absent or not a string), its label and id
/// those members where they are strings, its bucket the `bucketId` string
/// or the provider, and its remaining share the rounded `remainingPercent`
/// clamped to 0..=100.
pub proof fn law_transform_windows_follow_items(c: HttpSourceConfig, value: Json, updated_at: Seq<char>)
    ensures
        transform_usage_view(c, value, updated_at) matches Ok(u) ==> {
            let items = value.field("windows"@)->0.items()->0;
            &&& u.windows.len() == items.len()
            &&& forall|k: int|
                0 <= k < items.len() ==> {
                    let item = #[trigger] items[k];
                    let w = u.windows[k];
                    &&& w.value_label == opt_text(item.field("valueLabel"@))
                    &&& w.resets_at == opt_text(item.field("resetsAt"@))
                    &&& w.limit_label == opt_text(item.field("limitLabel"@))
                    &&& w.window_key == opt_text(item.field("windowKey"@))
                    &&& opt_text(item.field("label"@)) matches Some(l) ==> w.label == l
                    &&& opt_text(item.field("label"@)) is None ==> w.label == c.label@
                    &&& opt_text(item.field("id"@)) matches Some(i) ==> w.id == i
                    &&& w.bucket_id == Some(
                        match opt_text(item.field("bucketId"@)) {
                            Some(b) => b,
                            None => c.provider_id@,
                        },
                    )
                    &&& item.field("remainingPercent"@) matches Some(r) && r.numeric() matches Some(
                        f,
                    ) && w.remaining_percent == clamp_percent(f) && w.remaining_percent <= 100
                }
            &&& u.status == ProviderUsageStatus::Normal
            &&& u.provider == c.provider_id@
        },
{
    if let Some(wv) = value.field("windows"@) {
        if let Some(items) = wv.items() {
            lemma_transform_windows_each(c, items);
        }
    }
}

} // verus!
