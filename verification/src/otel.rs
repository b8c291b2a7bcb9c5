use vstd::prelude::*;

use std::time::Duration;

use crate::text::owned;

verus! {

// ---------------------------------------------------------------------------
// Settings and errors
// ---------------------------------------------------------------------------

/// Span attributes must have non-empty keys.
pub fn validate_span_attributes(attributes: &Vec<(String, String)>) -> (r: Result<(), String>)
    ensures
        r is Ok <==> forall|i: int| 0 <= i < attributes@.len() ==> attributes@[i].0@.len() > 0,
        r matches Err(m) ==> m@ == "configured span attribute key must not be empty"@,
{
    let mut i: usize = 0;
    while i < attributes.len()
        invariant
            i <= attributes@.len(),
            forall|j: int| 0 <= j < i ==> attributes@[j].0@.len() > 0,
        decreases attributes@.len() - i,
    {
        if attributes[i].0.as_str().unicode_len() == 0 {
            return Err(owned("configured span attribute key must not be empty"));
        }
        i = i + 1;
    }
    Ok(())
}

#[derive(Clone, Debug, PartialEq, Eq)]
pub struct StatsigMetricsSettings {
    pub environment: String,
}

#[derive(Clone, Debug)]
pub enum OtelHttpProtocol {
    Binary,
    Json,
}

#[derive(Debug)]
pub enum MetricsError {
    ExporterDisabled,
    RuntimeSnapshotUnavailable,
    InvalidConfig { message: String },
}

impl MetricsError {
    /// The error's message.
    pub fn message(&self) -> (r: String)
        ensures
            r@ == match self {
                MetricsError::ExporterDisabled => "metrics exporter is disabled"@,
                MetricsError::RuntimeSnapshotUnavailable =>
                    "runtime metrics snapshot reader is not enabled"@,
                MetricsError::InvalidConfig { message } => "invalid metrics configuration: "@
                    + message@,
            },
    {
        match self {
            MetricsError::ExporterDisabled => owned("metrics exporter is disabled"),
            MetricsError::RuntimeSnapshotUnavailable => owned(
                "runtime metrics snapshot reader is not enabled",
            ),
            MetricsError::InvalidConfig { message } => crate::browser_cli::cat2(
                "invalid metrics configuration: ",
                message.as_str(),
            ),
        }
    }
}

// ---------------------------------------------------------------------------
// Metrics
// ---------------------------------------------------------------------------

/// A metrics client; the browser build exports nothing, so every call
/// succeeds without effect.
#[derive(Clone, Debug)]
pub struct MetricsClient {}

/// The browser build records no process start.
pub fn record_process_start_once(metrics: &MetricsClient, originator: &str) -> (r: Result<bool, MetricsError>)
    ensures
        r matches Ok(false),
{
    Ok(false)
}

pub open spec fn tags_view(tags: &[(&str, &str)]) -> Seq<(Seq<char>, Seq<char>)> {
    tags@.map_values(|t: (&str, &str)| (t.0@, t.1@))
}

/// A running timer for a metric, with its name and tags.
#[derive(Debug)]
pub struct Timer {
    name: String,
    tags: Vec<(String, String)>,
}

impl Timer {
    pub closed spec fn name_view(&self) -> Seq<char> {
        self.name@
    }

    pub closed spec fn tags_of(&self) -> Seq<(Seq<char>, Seq<char>)> {
        crate::browser_cli::env_view(self.tags@)
    }

    fn new(name: &str, tags: &[(&str, &str)]) -> (t: Timer)
        ensures
            t.name_view() == name@,
            t.tags_of() == tags_view(tags),
    {
        let mut owned_tags: Vec<(String, String)> = Vec::new();
        let mut i: usize = 0;
        while i < tags.len()
            invariant
                i <= tags@.len(),
                owned_tags@.len() == i,
                forall|j: int| 0 <= j < i ==> owned_tags@[j].0@ == tags@[j].0@ && owned_tags@[j].1@
                    == tags@[j].1@,
            decreases tags@.len() - i,
        {
            let (k, v) = tags[i];
            owned_tags.push((owned(k), owned(v)));
            i = i + 1;
        }
        let t = Timer { name: owned(name), tags: owned_tags };
        assert(t.tags_of() =~= tags_view(tags));
        t
    }

    pub fn record(&self, additional_tags: &[(&str, &str)]) -> (r: Result<(), MetricsError>)
        ensures
            r is Ok,
    {
        Ok(())
    }
}

impl MetricsClient {
    pub fn new() -> (r: Result<MetricsClient, MetricsError>)
        ensures
            r is Ok,
    {
        Ok(MetricsClient {})
    }

    pub fn counter(&self, name: &str, inc: i64, tags: &[(&str, &str)]) -> (r: Result<(), MetricsError>)
        ensures
            r is Ok,
    {
        Ok(())
    }

    pub fn histogram(&self, name: &str, value: i64, tags: &[(&str, &str)]) -> (r: Result<(), MetricsError>)
        ensures
            r is Ok,
    {
        Ok(())
    }

    pub fn record_duration(&self, name: &str, duration: Duration, tags: &[(&str, &str)]) -> (r: Result<(), MetricsError>)
        ensures
            r is Ok,
    {
        Ok(())
    }

    /// A timer for `name` that carries `tags`.
    pub fn start_timer(&self, name: &str, tags: &[(&str, &str)]) -> (r: Result<Timer, MetricsError>)
        ensures
            r matches Ok(t) && t.name_view() == name@ && t.tags_of() == tags_view(tags),
    {
        Ok(Timer::new(name, tags))
    }

    pub fn shutdown(&self) -> (r: Result<(), MetricsError>)
        ensures
            r is Ok,
    {
        Ok(())
    }
}

/// A count of calls and the time they took.
#[derive(Debug, Clone, Copy, PartialEq, Eq, Structural)]
pub struct RuntimeMetricTotals {
    pub count: u64,
    pub duration_ms: u64,
}

pub open spec fn sat_add_u64(a: u64, b: u64) -> u64 {
    if a + b > u64::MAX {
        u64::MAX
    } else {
        (a + b) as u64
    }
}

pub open spec fn merged_totals(a: RuntimeMetricTotals, b: RuntimeMetricTotals) -> RuntimeMetricTotals {
    RuntimeMetricTotals {
        count: sat_add_u64(a.count, b.count),
        duration_ms: sat_add_u64(a.duration_ms, b.duration_ms),
    }
}

impl Default for RuntimeMetricTotals {
    fn default() -> (r: RuntimeMetricTotals)
        ensures
            r.count == 0 && r.duration_ms == 0,
    {
        RuntimeMetricTotals { count: 0, duration_ms: 0 }
    }
}

impl RuntimeMetricTotals {
    pub fn is_empty(self) -> (r: bool)
        ensures
            r == (self.count == 0 && self.duration_ms == 0),
    {
        self.count == 0 && self.duration_ms == 0
    }

    /// Adds `other`, saturating at the largest count.
    pub fn merge(&mut self, other: RuntimeMetricTotals)
        ensures
            *final(self) == merged_totals(*old(self), other),
    {
        self.count = self.count.saturating_add(other.count);
        self.duration_ms = self.duration_ms.saturating_add(other.duration_ms);
    }
}

/// Runtime metrics of a session.
#[derive(Debug, Clone, Copy, PartialEq, Eq, Structural)]
pub struct RuntimeMetricsSummary {
    pub tool_calls: RuntimeMetricTotals,
    pub api_calls: RuntimeMetricTotals,
    pub streaming_events: RuntimeMetricTotals,
    pub websocket_calls: RuntimeMetricTotals,
    pub websocket_events: RuntimeMetricTotals,
    pub responses_api_overhead_ms: u64,
    pub responses_api_inference_time_ms: u64,
    pub responses_api_engine_iapi_ttft_ms: u64,
    pub responses_api_engine_service_ttft_ms: u64,
    pub responses_api_engine_iapi_tbt_ms: u64,
    pub responses_api_engine_service_tbt_ms: u64,
    pub turn_ttft_ms: u64,
    pub turn_ttfm_ms: u64,
}

pub open spec fn totals_empty(t: RuntimeMetricTotals) -> bool {
    t.count == 0 && t.duration_ms == 0
}

pub open spec fn summary_empty(s: RuntimeMetricsSummary) -> bool {
    &&& totals_empty(s.tool_calls)
    &&& totals_empty(s.api_calls)
    &&& totals_empty(s.streaming_events)
    &&& totals_empty(s.websocket_calls)
    &&& totals_empty(s.websocket_events)
    &&& s.responses_api_overhead_ms == 0
    &&& s.responses_api_inference_time_ms == 0
    &&& s.responses_api_engine_iapi_ttft_ms == 0
    &&& s.responses_api_engine_service_ttft_ms == 0
    &&& s.responses_api_engine_iapi_tbt_ms == 0
    &&& s.responses_api_engine_service_tbt_ms == 0
    &&& s.turn_ttft_ms == 0
    &&& s.turn_ttfm_ms == 0
}

impl Default for RuntimeMetricsSummary {
    fn default() -> (r: RuntimeMetricsSummary)
        ensures
            summary_empty(r),
    {
        RuntimeMetricsSummary {
            tool_calls: RuntimeMetricTotals { count: 0, duration_ms: 0 },
            api_calls: RuntimeMetricTotals { count: 0, duration_ms: 0 },
            streaming_events: RuntimeMetricTotals { count: 0, duration_ms: 0 },
            websocket_calls: RuntimeMetricTotals { count: 0, duration_ms: 0 },
            websocket_events: RuntimeMetricTotals { count: 0, duration_ms: 0 },
            responses_api_overhead_ms: 0,
            responses_api_inference_time_ms: 0,
            responses_api_engine_iapi_ttft_ms: 0,
            responses_api_engine_service_ttft_ms: 0,
            responses_api_engine_iapi_tbt_ms: 0,
            responses_api_engine_service_tbt_ms: 0,
            turn_ttft_ms: 0,
            turn_ttfm_ms: 0,
        }
    }
}

impl RuntimeMetricsSummary {
    /// Whether every count and time is zero.
    pub fn is_empty(self) -> (r: bool)
        ensures
            r == summary_empty(self),
    {
        self.tool_calls.is_empty() && self.api_calls.is_empty() && self.streaming_events.is_empty()
            && self.websocket_calls.is_empty() && self.websocket_events.is_empty()
            && self.responses_api_overhead_ms == 0 && self.responses_api_inference_time_ms == 0
            && self.responses_api_engine_iapi_ttft_ms == 0
            && self.responses_api_engine_service_ttft_ms == 0
            && self.responses_api_engine_iapi_tbt_ms == 0
            && self.responses_api_engine_service_tbt_ms == 0 && self.turn_ttft_ms == 0
            && self.turn_ttfm_ms == 0
    }

    /// Adds the call totals of `other`; the response timings stay.
    pub fn merge(&mut self, other: RuntimeMetricsSummary)
        ensures
            final(self).tool_calls == merged_totals(old(self).tool_calls, other.tool_calls),
            final(self).api_calls == merged_totals(old(self).api_calls, other.api_calls),
            final(self).streaming_events == merged_totals(
                old(self).streaming_events,
                other.streaming_events,
            ),
            final(self).websocket_calls == merged_totals(old(self).websocket_calls, other.websocket_calls),
            final(self).websocket_events == merged_totals(
                old(self).websocket_events,
                other.websocket_events,
            ),
            final(self).responses_api_overhead_ms == old(self).responses_api_overhead_ms,
            final(self).responses_api_inference_time_ms == old(self).responses_api_inference_time_ms,
            final(self).responses_api_engine_iapi_ttft_ms == old(
                self,
            ).responses_api_engine_iapi_ttft_ms,
            final(self).responses_api_engine_service_ttft_ms == old(
                self,
            ).responses_api_engine_service_ttft_ms,
            final(self).responses_api_engine_iapi_tbt_ms == old(self).responses_api_engine_iapi_tbt_ms,
            final(self).responses_api_engine_service_tbt_ms == old(
                self,
            ).responses_api_engine_service_tbt_ms,
            final(self).turn_ttft_ms == old(self).turn_ttft_ms,
            final(self).turn_ttfm_ms == old(self).turn_ttfm_ms,
    {
        self.tool_calls.merge(other.tool_calls);
        self.api_calls.merge(other.api_calls);
        self.streaming_events.merge(other.streaming_events);
        self.websocket_calls.merge(other.websocket_calls);
        self.websocket_events.merge(other.websocket_events);
    }

    pub fn responses_api_summary(&self) -> (r: RuntimeMetricsSummary)
        ensures
            r == *self,
    {
        *self
    }
}

// ---------------------------------------------------------------------------
// Session telemetry
// ---------------------------------------------------------------------------

#[derive(Clone, Debug, PartialEq, Eq)]
pub struct AuthEnvTelemetryMetadata {
    pub openai_api_key_env_present: bool,
    pub codex_api_key_env_present: bool,
    pub codex_api_key_env_enabled: bool,
    pub provider_env_key_name: Option<String>,
    pub provider_env_key_present: Option<bool>,
    pub refresh_token_url_override_present: bool,
}

impl Default for AuthEnvTelemetryMetadata {
    fn default() -> (r: AuthEnvTelemetryMetadata)
        ensures
            !r.openai_api_key_env_present,
            !r.codex_api_key_env_present,
            !r.codex_api_key_env_enabled,
            r.provider_env_key_name is None,
            r.provider_env_key_present is None,
            !r.refresh_token_url_override_present,
    {
        AuthEnvTelemetryMetadata {
            openai_api_key_env_present: false,
            codex_api_key_env_present: false,
            codex_api_key_env_enabled: false,
            provider_env_key_name: None,
            provider_env_key_present: None,
            refresh_token_url_override_present: false,
        }
    }
}

#[derive(Debug, Clone)]
pub struct SessionTelemetryMetadata {
    pub auth_mode: Option<String>,
    pub auth_env: AuthEnvTelemetryMetadata,
    pub account_id: Option<String>,
    pub account_email: Option<String>,
    pub originator: String,
    pub service_name: Option<String>,
    pub session_source: String,
    pub model: String,
    pub slug: String,
    pub log_user_prompts: bool,
    pub app_version: String,
    pub terminal_type: String,
}

/// What a session reports; the browser build records nothing.
#[derive(Debug, Clone)]
pub struct SessionTelemetry {
    pub metadata: SessionTelemetryMetadata,
}

#[derive(Debug, Clone, Copy, PartialEq, Eq, Structural)]
pub enum ToolDecisionSource {
    AutomatedReviewer,
    Config,
    User,
}

impl ToolDecisionSource {
    /// The name as it is displayed.
    pub fn display_name(self) -> (r: &'static str)
        ensures
            r@ == match self {
                ToolDecisionSource::AutomatedReviewer => "AutomatedReviewer"@,
                ToolDecisionSource::Config => "Config"@,
                ToolDecisionSource::User => "User"@,
            },
    {
        match self {
            ToolDecisionSource::AutomatedReviewer => "AutomatedReviewer",
            ToolDecisionSource::Config => "Config",
            ToolDecisionSource::User => "User",
        }
    }

    /// The name as it is serialized.
    pub fn serialized_name(self) -> (r: &'static str)
        ensures
            r@ == match self {
                ToolDecisionSource::AutomatedReviewer => "automated_reviewer"@,
                ToolDecisionSource::Config => "config"@,
                ToolDecisionSource::User => "user"@,
            },
    {
        match self {
            ToolDecisionSource::AutomatedReviewer => "automated_reviewer",
            ToolDecisionSource::Config => "config",
            ToolDecisionSource::User => "user",
        }
    }
}

#[derive(Debug, Clone, Copy, PartialEq, Eq, Structural)]
pub enum TelemetryAuthMode {
    ApiKey,
    Chatgpt,
}

impl TelemetryAuthMode {
    /// The name as it is displayed.
    pub fn display_name(self) -> (r: &'static str)
        ensures
            r@ == match self {
                TelemetryAuthMode::ApiKey => "ApiKey"@,
                TelemetryAuthMode::Chatgpt => "Chatgpt"@,
            },
    {
        match self {
            TelemetryAuthMode::ApiKey => "ApiKey",
            TelemetryAuthMode::Chatgpt => "Chatgpt",
        }
    }
}

impl SessionTelemetry {
    pub fn with_auth_env(self, auth_env: AuthEnvTelemetryMetadata) -> (r: SessionTelemetry)
        ensures
            r.metadata.auth_env == auth_env,
            r.metadata.model == self.metadata.model,
            r.metadata.slug == self.metadata.slug,
            r.metadata.originator == self.metadata.originator,
    {
        let mut s = self;
        s.metadata.auth_env = auth_env;
        s
    }

    pub fn with_model(self, model: &str, slug: &str) -> (r: SessionTelemetry)
        ensures
            r.metadata.model@ == model@,
            r.metadata.slug@ == slug@,
            r.metadata.auth_env == self.metadata.auth_env,
            r.metadata.originator == self.metadata.originator,
    {
        let mut s = self;
        s.metadata.model = owned(model);
        s.metadata.slug = owned(slug);
        s
    }

    pub fn with_metrics(self, metrics: MetricsClient) -> (r: SessionTelemetry)
        ensures
            r.metadata == self.metadata,
    {
        self
    }

    pub fn with_metrics_without_metadata_tags(self, metrics: MetricsClient) -> (r: SessionTelemetry)
        ensures
            r.metadata == self.metadata,
    {
        self
    }

    pub fn with_provider_metrics(self, provider: &OtelProvider) -> (r: SessionTelemetry)
        ensures
            r.metadata == self.metadata,
    {
        self
    }

    pub fn counter(&self, name: &str, inc: i64, tags: &[(&str, &str)]) {
    }

    pub fn histogram(&self, name: &str, value: i64, tags: &[(&str, &str)]) {
    }

    pub fn record_duration(&self, name: &str, duration: Duration, tags: &[(&str, &str)]) {
    }

    pub fn record_startup_phase(&self, phase: &str, duration: Duration, status: Option<&str>) {
    }

    pub fn record_turn_ttft(&self, duration: Duration) {
    }

    pub fn record_plugin_install_elicitation_sent(&self, tool_type: &str, tool_id: &str, tool_name: &str) {
    }

    pub fn record_plugin_install_suggestion(
        &self,
        tool_type: &str,
        tool_id: &str,
        tool_name: &str,
        response_action: &str,
        user_confirmed: bool,
        completed: bool,
    ) {
    }

    pub fn record_responses<T>(&self, event: &T) {
    }

    pub fn conversation_starts(
        &self,
        provider_name: &str,
        context_window: Option<i64>,
        auto_compact_token_limit: Option<i64>,
        mcp_servers: Vec<&str>,
    ) {
    }

    pub fn record_api_request(
        &self,
        attempt: u64,
        status: Option<u16>,
        error: Option<&str>,
        duration: Duration,
        auth_header_attached: bool,
        auth_header_name: Option<&str>,
        retry_after_unauthorized: bool,
        recovery_mode: Option<&str>,
        recovery_phase: Option<&str>,
        endpoint: &str,
        request_id: Option<&str>,
        cf_ray: Option<&str>,
        auth_error: Option<&str>,
        auth_error_code: Option<&str>,
    ) {
    }

    pub fn record_websocket_connect(
        &self,
        duration: Duration,
        status: Option<u16>,
        error: Option<&str>,
        auth_header_attached: bool,
        auth_header_name: Option<&str>,
        retry_after_unauthorized: bool,
        recovery_mode: Option<&str>,
        recovery_phase: Option<&str>,
        endpoint: &str,
        connection_reused: bool,
        request_id: Option<&str>,
        cf_ray: Option<&str>,
        auth_error: Option<&str>,
        auth_error_code: Option<&str>,
    ) {
    }

    pub fn record_websocket_request(&self, duration: Duration, error: Option<&str>, connection_reused: bool) {
    }

    pub fn record_auth_recovery(
        &self,
        mode: &str,
        step: &str,
        outcome: &str,
        request_id: Option<&str>,
        cf_ray: Option<&str>,
        auth_error: Option<&str>,
        auth_error_code: Option<&str>,
        recovery_reason: Option<&str>,
        auth_state_changed: Option<bool>,
    ) {
    }

    pub fn record_websocket_event<T>(&self, result: &T, duration: Duration) {
    }

    pub fn log_sse_event<T>(&self, response: &T, duration: Duration) {
    }

    pub fn see_event_completed_failed<T>(&self, error: &T) {
    }

    pub fn sse_event_completed(
        &self,
        input_token_count: i64,
        output_token_count: i64,
        cached_token_count: Option<i64>,
        reasoning_token_count: Option<i64>,
        tool_token_count: i64,
    ) {
    }

    pub fn user_prompt<T>(&self, items: &[T]) {
    }

    pub fn tool_decision<T>(&self, tool_name: &str, call_id: &str, decision: &T, source: ToolDecisionSource) {
    }

    pub fn log_tool_failed(&self, tool_name: &str, error: &str) {
    }

    pub fn tool_result_with_tags(
        &self,
        tool_name: &str,
        call_id: &str,
        arguments: &str,
        duration: Duration,
        success: bool,
        output: &str,
        extra_tags: &[(&str, &str)],
        extra_trace_fields: &[(&str, &str)],
    ) {
    }

    /// A timer for `name` that carries `tags`.
    pub fn start_timer(&self, name: &str, tags: &[(&str, &str)]) -> (r: Result<Timer, MetricsError>)
        ensures
            r matches Ok(t) && t.name_view() == name@ && t.tags_of() == tags_view(tags),
    {
        Ok(Timer::new(name, tags))
    }

    pub fn shutdown_metrics(&self) -> (r: Result<(), MetricsError>)
        ensures
            r is Ok,
    {
        Ok(())
    }

    pub fn reset_runtime_metrics(&self) {
    }

    /// The browser build keeps no runtime metrics.
    pub fn runtime_metrics_summary(&self) -> (r: Option<RuntimeMetricsSummary>)
        ensures
            r is None,
    {
        None
    }
}

/// The telemetry exporters; the browser build runs none.
#[derive(Clone, Debug)]
pub struct OtelProvider {}

impl OtelProvider {
    pub fn shutdown(&self) {
    }

    pub fn metrics(&self) -> (r: Option<&MetricsClient>)
        ensures
            r is None,
    {
        None
    }

    /// The browser build exports no events.
    pub fn codex_export_filter() -> (r: bool)
        ensures
            !r,
    {
        false
    }

    pub fn log_export_filter() -> (r: bool)
        ensures
            !r,
    {
        false
    }

    pub fn trace_export_filter() -> (r: bool)
        ensures
            !r,
    {
        false
    }
}

// ---------------------------------------------------------------------------
// Process-wide telemetry
// ---------------------------------------------------------------------------

/// The browser build installs no global metrics client, so no global timer
/// can start.
pub fn start_global_timer(name: &str, tags: &[(&str, &str)]) -> (r: Result<Timer, MetricsError>)
    ensures
        r matches Err(MetricsError::ExporterDisabled),
{
    Err(MetricsError::ExporterDisabled)
}

pub fn global() -> (r: Option<MetricsClient>)
    ensures
        r is None,
{
    None
}

pub fn global_statsig_metrics_settings() -> (r: Option<StatsigMetricsSettings>)
    ensures
        r is None,
{
    None
}

pub fn current_span_trace_id() -> (r: Option<String>)
    ensures
        r is None,
{
    None
}

pub fn set_parent_from_context<T>(context: T) {
}

pub fn traceparent_context_from_env() -> (r: Option<()>)
    ensures
        r is None,
{
    None
}

/// The browser build accepts every tracestate.
pub fn validate_tracestate_entries(entries: &Vec<(String, Vec<(String, String)>)>) -> (r: Result<(), String>)
    ensures
        r is Ok,
{
    Ok(())
}

pub fn validate_tracestate_member(key: &str, fields: &Vec<(String, String)>) -> (r: Result<(), String>)
    ensures
        r is Ok,
{
    Ok(())
}

} // verus!
