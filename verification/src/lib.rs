//! Core of a plugin runtime: manifests and version negotiation, the
//! per-plugin lifecycle state machine, the plugin registry, the loader, and
//! the debounced file watcher.
//!
//! The library owns its plugins singly and takes them by exclusive reference
//! wherever an operation changes them; sharing between threads is the
//! business of the host, which puts a lock around a registry or a plugin.

use vstd::prelude::*;

pub mod error;
pub mod host;
pub mod index;
pub mod lifecycle;
pub mod loader;
pub mod manifest;
pub mod metrics;
pub mod paths;
pub mod plugin;
pub mod registry;
pub mod runtime;
pub mod text;
pub mod watcher;

pub use error::{Error, ErrorView};
pub use lifecycle::{LifecycleEvent, LifecycleHooks, LifecycleState, Operation, PluginLifecycle};
pub use loader::{LoaderConfig, PluginLoader};
pub use manifest::{ApiVersion, Dependency, Manifest, ManifestBuilder, Metadata};
pub use metrics::MetricsConfig;
pub use plugin::{Plugin, PluginInfo};
pub use registry::{PluginRegistry, RegistryConfig, RegistryStats};
pub use runtime::{fits_pattern, PluginRuntime, RuntimeConfig};
pub use watcher::{PluginWatcher, RawEvent, RawEventKind, WatchConfig, WatchEvent};

verus! {

/// Version of this crate.
pub const VERSION: &'static str = "0.1.0";

} // verus!
