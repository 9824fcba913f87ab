//! Errors of plugin operations.

use vstd::prelude::*;
use fusabi_host::Error as HostError;
use crate::text::{concat2, concat3};

verus! {

/// An error of the file system, an opaque value.
#[verifier::external_type_specification]
#[verifier::external_body]
pub struct ExIoError(std::io::Error);

/// An error of the engine layer, an opaque value.
#[verifier::external_type_specification]
#[verifier::external_body]
pub struct ExHostError(HostError);

/// Errors that can occur during plugin operations.
#[derive(Debug)]
pub enum Error {
    /// Plugin not found.
    PluginNotFound(String),
    /// Plugin already loaded.
    PluginAlreadyLoaded(String),
    /// Invalid manifest.
    InvalidManifest(String),
    /// Missing required field in manifest.
    MissingManifestField(String),
    /// API version mismatch.
    ApiVersionMismatch {
        /// Version required by the plugin.
        required: String,
        /// Version provided by the host.
        provided: String,
    },
    /// A capability declared by the plugin is not granted by the host.
    MissingCapability(String),
    /// Capability not declared in the manifest.
    UndeclaredCapability(String),
    /// Dependency not satisfied.
    DependencyNotSatisfied {
        /// Dependency name.
        name: String,
        /// Required version.
        version: String,
    },
    /// Plugin initialization failed.
    InitializationFailed(String),
    /// Plugin execution failed.
    ExecutionFailed(String),
    /// The plugin is not in a state that allows the operation.
    InvalidState {
        /// Expected state.
        expected: String,
        /// Actual state.
        actual: String,
    },
    /// Function not found in the plugin.
    FunctionNotFound(String),
    /// Compilation error.
    Compilation(String),
    /// Filesystem failure.
    Io(std::io::Error),
    /// Engine-layer error.
    Host(HostError),
    /// Malformed manifest text.
    ManifestParse(String),
    /// Watcher backend failure.
    Watch(String),
    /// The plugin was unloaded.
    PluginUnloaded,
    /// The plugin could not be restarted by a reload.
    ReloadFailed(String),
    /// Capacity or registry invariant.
    Registry(String),
}

/// Mathematical value of an [`Error`]: the variant and its texts.
pub enum ErrorView {
    PluginNotFound(Seq<char>),
    PluginAlreadyLoaded(Seq<char>),
    InvalidManifest(Seq<char>),
    MissingManifestField(Seq<char>),
    ApiVersionMismatch { required: Seq<char>, provided: Seq<char> },
    MissingCapability(Seq<char>),
    UndeclaredCapability(Seq<char>),
    DependencyNotSatisfied { name: Seq<char>, version: Seq<char> },
    InitializationFailed(Seq<char>),
    ExecutionFailed(Seq<char>),
    InvalidState { expected: Seq<char>, actual: Seq<char> },
    FunctionNotFound(Seq<char>),
    Compilation(Seq<char>),
    Io,
    Host,
    ManifestParse(Seq<char>),
    Watch(Seq<char>),
    PluginUnloaded,
    ReloadFailed(Seq<char>),
    Registry(Seq<char>),
}

impl ErrorView {
    /// Whether an operation that failed this way may be tried again as it is.
    pub open spec fn is_recoverable(self) -> bool {
        self is PluginNotFound || self is FunctionNotFound || self is InvalidState
    }

    /// Whether a failure of this kind calls for a reload of the plugin.
    pub open spec fn should_reload(self) -> bool {
        self is Compilation || self is ExecutionFailed || self is ReloadFailed
    }

    /// The text that introduces the message of each kind of error.
    pub open spec fn prefix(self) -> Seq<char> {
        match self {
            ErrorView::PluginNotFound(_) => "plugin not found: "@,
            ErrorView::PluginAlreadyLoaded(_) => "plugin already loaded: "@,
            ErrorView::InvalidManifest(_) => "invalid manifest: "@,
            ErrorView::MissingManifestField(_) => "missing required manifest field: "@,
            ErrorView::ApiVersionMismatch { .. } => "API version mismatch: plugin requires "@,
            ErrorView::MissingCapability(_) => "missing required capability: "@,
            ErrorView::UndeclaredCapability(_) => "capability not declared in manifest: "@,
            ErrorView::DependencyNotSatisfied { .. } => "dependency not satisfied: "@,
            ErrorView::InitializationFailed(_) => "plugin initialization failed: "@,
            ErrorView::ExecutionFailed(_) => "plugin execution failed: "@,
            ErrorView::InvalidState { .. } => "invalid plugin state: expected "@,
            ErrorView::FunctionNotFound(_) => "function not found: "@,
            ErrorView::Compilation(_) => "compilation error: "@,
            ErrorView::Io => "io error: "@,
            ErrorView::Host => "host error: "@,
            ErrorView::ManifestParse(_) => "manifest parse error: "@,
            ErrorView::Watch(_) => "watch error: "@,
            ErrorView::PluginUnloaded => "plugin was unloaded"@,
            ErrorView::ReloadFailed(_) => "plugin reload failed: "@,
            ErrorView::Registry(_) => "registry error: "@,
        }
    }

    /// What follows the prefix in the message, for the kinds whose texts the
    /// library holds.
    pub open spec fn detail(self) -> Seq<char> {
        match self {
            ErrorView::PluginNotFound(s) => s,
            ErrorView::PluginAlreadyLoaded(s) => s,
            ErrorView::InvalidManifest(s) => s,
            ErrorView::MissingManifestField(s) => s,
            ErrorView::ApiVersionMismatch { required, provided } => required
                + ", host provides "@ + provided,
            ErrorView::MissingCapability(s) => s,
            ErrorView::UndeclaredCapability(s) => s,
            ErrorView::DependencyNotSatisfied { name, version } => name + " requires "@ + version,
            ErrorView::InitializationFailed(s) => s,
            ErrorView::ExecutionFailed(s) => s,
            ErrorView::InvalidState { expected, actual } => expected + ", got "@ + actual,
            ErrorView::FunctionNotFound(s) => s,
            ErrorView::Compilation(s) => s,
            ErrorView::Io => Seq::empty(),
            ErrorView::Host => Seq::empty(),
            ErrorView::ManifestParse(s) => s,
            ErrorView::Watch(s) => s,
            ErrorView::PluginUnloaded => Seq::empty(),
            ErrorView::ReloadFailed(s) => s,
            ErrorView::Registry(s) => s,
        }
    }

    /// The message of the error. For `Io` and `Host` the message goes on with
    /// the text of the underlying error, which this value does not hold.
    pub open spec fn message(self) -> Seq<char> {
        self.prefix() + self.detail()
    }
}

impl View for Error {
    type V = ErrorView;

    open spec fn view(&self) -> ErrorView {
        match *self {
            Error::PluginNotFound(s) => ErrorView::PluginNotFound(s@),
            Error::PluginAlreadyLoaded(s) => ErrorView::PluginAlreadyLoaded(s@),
            Error::InvalidManifest(s) => ErrorView::InvalidManifest(s@),
            Error::MissingManifestField(s) => ErrorView::MissingManifestField(s@),
            Error::ApiVersionMismatch { required, provided } => ErrorView::ApiVersionMismatch {
                required: required@,
                provided: provided@,
            },
            Error::MissingCapability(s) => ErrorView::MissingCapability(s@),
            Error::UndeclaredCapability(s) => ErrorView::UndeclaredCapability(s@),
            Error::DependencyNotSatisfied { name, version } => ErrorView::DependencyNotSatisfied {
                name: name@,
                version: version@,
            },
            Error::InitializationFailed(s) => ErrorView::InitializationFailed(s@),
            Error::ExecutionFailed(s) => ErrorView::ExecutionFailed(s@),
            Error::InvalidState { expected, actual } => ErrorView::InvalidState {
                expected: expected@,
                actual: actual@,
            },
            Error::FunctionNotFound(s) => ErrorView::FunctionNotFound(s@),
            Error::Compilation(s) => ErrorView::Compilation(s@),
            Error::Io(_) => ErrorView::Io,
            Error::Host(_) => ErrorView::Host,
            Error::ManifestParse(s) => ErrorView::ManifestParse(s@),
            Error::Watch(s) => ErrorView::Watch(s@),
            Error::PluginUnloaded => ErrorView::PluginUnloaded,
            Error::ReloadFailed(s) => ErrorView::ReloadFailed(s@),
            Error::Registry(s) => ErrorView::Registry(s@),
        }
    }
}

/// The outcome of an operation with the error taken by its value.
pub open spec fn outcome_view<T>(outcome: Result<T, Error>) -> Result<T, ErrorView> {
    match outcome {
        Ok(value) => Ok(value),
        Err(e) => Err(e@),
    }
}

/// The text of an I/O error, as `std::io::Error` displays it. Nothing is
/// claimed of the text.
#[verifier::external_body]
fn io_error_text(e: &std::io::Error) -> String {
    e.to_string()
}

/// The text of an engine-layer error, as `fusabi_host::Error` displays it.
/// Nothing is claimed of the text.
#[verifier::external_body]
pub(crate) fn host_error_text(e: &HostError) -> String {
    e.to_string()
}

impl Error {
    /// A plugin-not-found error.
    pub fn plugin_not_found(name: &str) -> (e: Error)
        ensures
            e@ == ErrorView::PluginNotFound(name@),
    {
        Error::PluginNotFound(String::from_str(name))
    }

    /// An invalid-manifest error.
    pub fn invalid_manifest(msg: &str) -> (e: Error)
        ensures
            e@ == ErrorView::InvalidManifest(msg@),
    {
        Error::InvalidManifest(String::from_str(msg))
    }

    /// A missing-manifest-field error.
    pub fn missing_field(field: &str) -> (e: Error)
        ensures
            e@ == ErrorView::MissingManifestField(field@),
    {
        Error::MissingManifestField(String::from_str(field))
    }

    /// An API-version-mismatch error.
    pub fn api_version_mismatch(required: &str, provided: &str) -> (e: Error)
        ensures
            e@ == (ErrorView::ApiVersionMismatch { required: required@, provided: provided@ }),
    {
        Error::ApiVersionMismatch {
            required: String::from_str(required),
            provided: String::from_str(provided),
        }
    }

    /// A missing-capability error.
    pub fn missing_capability(cap: &str) -> (e: Error)
        ensures
            e@ == ErrorView::MissingCapability(cap@),
    {
        Error::MissingCapability(String::from_str(cap))
    }

    /// A dependency-not-satisfied error.
    pub fn dependency_not_satisfied(name: &str, version: &str) -> (e: Error)
        ensures
            e@ == (ErrorView::DependencyNotSatisfied { name: name@, version: version@ }),
    {
        Error::DependencyNotSatisfied {
            name: String::from_str(name),
            version: String::from_str(version),
        }
    }

    /// An initialization-failed error.
    pub fn init_failed(msg: &str) -> (e: Error)
        ensures
            e@ == ErrorView::InitializationFailed(msg@),
    {
        Error::InitializationFailed(String::from_str(msg))
    }

    /// An execution-failed error.
    pub fn execution_failed(msg: &str) -> (e: Error)
        ensures
            e@ == ErrorView::ExecutionFailed(msg@),
    {
        Error::ExecutionFailed(String::from_str(msg))
    }

    /// An invalid-state error.
    pub fn invalid_state(expected: &str, actual: &str) -> (e: Error)
        ensures
            e@ == (ErrorView::InvalidState { expected: expected@, actual: actual@ }),
    {
        Error::InvalidState {
            expected: String::from_str(expected),
            actual: String::from_str(actual),
        }
    }

    /// Whether this error is recoverable.
    pub fn is_recoverable(&self) -> (b: bool)
        ensures
            b == self@.is_recoverable(),
    {
        match self {
            Error::PluginNotFound(_) => true,
            Error::FunctionNotFound(_) => true,
            Error::InvalidState { .. } => true,
            _ => false,
        }
    }

    /// Whether this error should trigger a reload.
    pub fn should_reload(&self) -> (b: bool)
        ensures
            b == self@.should_reload(),
    {
        match self {
            Error::Compilation(_) => true,
            Error::ExecutionFailed(_) => true,
            Error::ReloadFailed(_) => true,
            _ => false,
        }
    }

    /// The message of the error.
    pub fn to_string(&self) -> (s: String)
        ensures
            self@ is Io || self@ is Host ==> s@.len() >= self@.prefix().len() && s@.subrange(
                0,
                self@.prefix().len() as int,
            ) == self@.prefix(),
            !(self@ is Io || self@ is Host) ==> s@ == self@.message(),
    {
        match self {
            Error::PluginNotFound(s) => concat2("plugin not found: ", s.as_str()),
            Error::PluginAlreadyLoaded(s) => concat2("plugin already loaded: ", s.as_str()),
            Error::InvalidManifest(s) => concat2("invalid manifest: ", s.as_str()),
            Error::MissingManifestField(s) => concat2(
                "missing required manifest field: ",
                s.as_str(),
            ),
            Error::ApiVersionMismatch { required, provided } => {
                let detail = concat3(required.as_str(), ", host provides ", provided.as_str());
                concat2("API version mismatch: plugin requires ", detail.as_str())
            },
            Error::MissingCapability(s) => concat2("missing required capability: ", s.as_str()),
            Error::UndeclaredCapability(s) => concat2(
                "capability not declared in manifest: ",
                s.as_str(),
            ),
            Error::DependencyNotSatisfied { name, version } => {
                let detail = concat3(name.as_str(), " requires ", version.as_str());
                concat2("dependency not satisfied: ", detail.as_str())
            },
            Error::InitializationFailed(s) => concat2("plugin initialization failed: ", s.as_str()),
            Error::ExecutionFailed(s) => concat2("plugin execution failed: ", s.as_str()),
            Error::InvalidState { expected, actual } => {
                let detail = concat3(expected.as_str(), ", got ", actual.as_str());
                concat2("invalid plugin state: expected ", detail.as_str())
            },
            Error::FunctionNotFound(s) => concat2("function not found: ", s.as_str()),
            Error::Compilation(s) => concat2("compilation error: ", s.as_str()),
            Error::Io(e) => {
                let text = io_error_text(e);
                let s = concat2("io error: ", text.as_str());
                s
            },
            Error::Host(e) => {
                let text = host_error_text(e);
                let s = concat2("host error: ", text.as_str());
                s
            },
            Error::ManifestParse(s) => concat2("manifest parse error: ", s.as_str()),
            Error::Watch(s) => concat2("watch error: ", s.as_str()),
            Error::PluginUnloaded => {
                let s = String::from_str("plugin was unloaded");
                s
            },
            Error::ReloadFailed(s) => concat2("plugin reload failed: ", s.as_str()),
            Error::Registry(s) => concat2("registry error: ", s.as_str()),
        }
    }
}

} // verus!
