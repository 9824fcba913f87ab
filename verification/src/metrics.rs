//! Configuration of metrics collection.

use vstd::prelude::*;

verus! {

/// Configuration of plugin metrics collection.
#[derive(Debug)]
pub struct MetricsConfig {
    /// Prefix of the name of every plugin metric.
    pub prefix: String,
    /// Whether detailed timing histograms are collected.
    pub detailed_timing: bool,
}

/// Mathematical value of a [`MetricsConfig`].
pub struct MetricsConfigView {
    pub prefix: Seq<char>,
    pub detailed_timing: bool,
}

impl View for MetricsConfig {
    type V = MetricsConfigView;

    open spec fn view(&self) -> MetricsConfigView {
        MetricsConfigView { prefix: self.prefix@, detailed_timing: self.detailed_timing }
    }
}

impl Default for MetricsConfig {
    /// The prefix `fusabi_plugin`, with detailed timing.
    fn default() -> (config: MetricsConfig)
        ensures
            config@ == (MetricsConfigView { prefix: "fusabi_plugin"@, detailed_timing: true }),
    {
        MetricsConfig { prefix: String::from_str("fusabi_plugin"), detailed_timing: true }
    }
}

impl Clone for MetricsConfig {
    fn clone(&self) -> (copy: MetricsConfig)
        ensures
            copy@ == self@,
    {
        MetricsConfig { prefix: self.prefix.clone(), detailed_timing: self.detailed_timing }
    }
}

impl MetricsConfig {
    /// The default configuration.
    pub fn new() -> (config: MetricsConfig)
        ensures
            config@ == (MetricsConfigView { prefix: "fusabi_plugin"@, detailed_timing: true }),
    {
        MetricsConfig::default()
    }

    /// Sets the prefix.
    pub fn with_prefix(self, prefix: &str) -> (config: MetricsConfig)
        ensures
            config@ == (MetricsConfigView { prefix: prefix@, ..self@ }),
    {
        let mut config = self;
        config.prefix = String::from_str(prefix);
        config
    }

    /// Enables or disables detailed timing.
    pub fn with_detailed_timing(self, enabled: bool) -> (config: MetricsConfig)
        ensures
            config@ == (MetricsConfigView { detailed_timing: enabled, ..self@ }),
    {
        let mut config = self;
        config.detailed_timing = enabled;
        config
    }
}

} // verus!
