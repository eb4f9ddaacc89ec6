//! Telemetry hooks of the Windows engine. No telemetry is collected: a
//! provider is never built and every metric call succeeds without effect.

use vstd::prelude::*;

verus! {

#[verifier::external_type_specification]
#[verifier::external_body]
pub struct ExAnyhowError(anyhow::Error);

/// Settings of the Statsig metrics exporter.
#[derive(Debug)]
pub struct StatsigMetricsSettings {
    pub environment: String,
}

impl Clone for StatsigMetricsSettings {
    fn clone(&self) -> (r: Self)
        ensures
            r.environment@ == self.environment@,
    {
        StatsigMetricsSettings { environment: self.environment.clone() }
    }
}

impl Default for StatsigMetricsSettings {
    fn default() -> (r: Self)
        ensures
            r.environment@.len() == 0,
    {
        StatsigMetricsSettings { environment: String::new() }
    }
}

/// Where telemetry goes.
#[derive(Debug, Clone, Copy, PartialEq, Eq, Structural)]
pub enum OtelExporter {
    Disabled,
    Statsig,
}

impl Default for OtelExporter {
    fn default() -> (r: Self)
        ensures
            r == OtelExporter::Disabled,
    {
        OtelExporter::Disabled
    }
}

/// Telemetry configuration.
pub struct OtelSettings {
    pub environment: String,
    pub service_name: String,
    pub service_version: String,
    pub codex_home: String,
    pub exporter: OtelExporter,
    pub trace_exporter: OtelExporter,
    pub metrics_exporter: OtelExporter,
    pub runtime_metrics: bool,
    pub tracestate: Option<String>,
    pub span_attributes: Vec<(String, String)>,
}

/// Metrics handle; every call succeeds and records nothing.
#[derive(Debug)]
pub struct OtelMetrics;

impl OtelMetrics {
    pub fn counter<A>(&self, name: &str, value: u64, attrs: &A) -> (r: Result<(), anyhow::Error>)
        ensures
            r is Ok,
    {
        Ok(())
    }
}

/// Telemetry provider.
#[derive(Debug)]
pub struct OtelProvider {
    metrics: OtelMetrics,
}

impl Default for OtelProvider {
    fn default() -> (r: Self) {
        OtelProvider { metrics: OtelMetrics }
    }
}

impl OtelProvider {
    /// Builds the provider the settings ask for; no provider is ever built.
    pub fn from(settings: &OtelSettings) -> (r: Result<Option<OtelProvider>, anyhow::Error>)
        ensures
            r matches Ok(None),
    {
        Ok(None)
    }

    /// Flushes and stops the provider; there is nothing to flush.
    pub fn shutdown(&self) {
    }

    /// The provider's metrics handle.
    pub fn metrics(&self) -> (r: &OtelMetrics) {
        &self.metrics
    }
}

} // verus!
