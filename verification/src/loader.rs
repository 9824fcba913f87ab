//! Plugin loader: from a manifest and the content of its entry point to an
//! initialized, and optionally started, plugin.
//!
//! The loader reads no file. Its caller reads the entry point, or has the
//! engine compile it, and hands the content over.

use vstd::prelude::*;
use crate::error::{host_error_text, outcome_view, Error, ErrorView};
use crate::host::{
    bytecode_compiler_version, bytecode_header_valid, compile_options_clone, compile_source,
    compiled, compiles_alike, config_clone, config_grant, config_grants, default_compile_options,
    default_engine_config, default_grants, engine_grants, engine_ran, known_capability,
    production_compile_options, strict_engine_config, validate_bytecode,
};
use crate::lifecycle::LifecycleState;
use crate::manifest::{all_known, first_unknown_at, ApiVersion, Manifest, ManifestView};
use crate::paths::{
    file_stem_of, is_absolute, join, parent_of, path_file_stem, path_is_absolute, path_join,
    path_parent,
};
use crate::plugin::{hook_call, Plugin, PluginInfoView, PluginView};
use crate::text::{clone_opt_text, concat2, opt_text};

verus! {

/// Configuration of the plugin loader.
#[derive(Debug)]
pub struct LoaderConfig {
    /// Engine configuration that every plugin starts from.
    pub engine_config: fusabi_host::EngineConfig,
    /// Compilation options.
    pub compile_options: fusabi_host::CompileOptions,
    /// API version of the host.
    pub host_api_version: ApiVersion,
    /// Base path against which relative paths are resolved.
    pub base_path: Option<String>,
    /// Whether plugins are started after loading.
    pub auto_start: bool,
    /// Whether manifests are validated before loading.
    pub strict_validation: bool,
}

/// Mathematical value of a [`LoaderConfig`]. The engine configuration and the
/// compile options are opaque values.
pub struct LoaderConfigView {
    pub engine_config: fusabi_host::EngineConfig,
    pub compile_options: fusabi_host::CompileOptions,
    pub host_api_version: ApiVersion,
    pub base_path: Option<Seq<char>>,
    pub auto_start: bool,
    pub strict_validation: bool,
}

impl View for LoaderConfig {
    type V = LoaderConfigView;

    open spec fn view(&self) -> LoaderConfigView {
        LoaderConfigView {
            engine_config: self.engine_config,
            compile_options: self.compile_options,
            host_api_version: self.host_api_version,
            base_path: opt_text(self.base_path),
            auto_start: self.auto_start,
            strict_validation: self.strict_validation,
        }
    }
}

impl LoaderConfigView {
    /// Whether two configurations make a loader behave alike: their engine
    /// configurations grant the same capabilities, their compile options
    /// have the compiler make the same of every text, and they agree in
    /// everything else.
    pub open spec fn alike(self, other: LoaderConfigView) -> bool {
        &&& config_grants(self.engine_config) == config_grants(other.engine_config)
        &&& compiles_alike(self.compile_options, other.compile_options)
        &&& self.host_api_version == other.host_api_version
        &&& self.base_path == other.base_path
        &&& self.auto_start == other.auto_start
        &&& self.strict_validation == other.strict_validation
    }

    /// The path that a path stands for: itself where it is absolute or where
    /// there is no base path, else the base path followed by it.
    pub open spec fn resolve(self, path: Seq<char>) -> Seq<char> {
        if path_is_absolute(path) {
            path
        } else {
            match self.base_path {
                Some(base) => path_join(base, path),
                None => path,
            }
        }
    }

    /// The path of the entry point of a manifest: against the directory of
    /// the manifest file where one is given, the current directory where it
    /// has none, else resolved against the base path.
    pub open spec fn entry_path(
        self,
        manifest: ManifestView,
        manifest_path: Option<Seq<char>>,
    ) -> Option<Seq<char>> {
        match manifest.entry_point() {
            None => None,
            Some(entry) => Some(
                match manifest_path {
                    Some(file) => path_join(
                        match path_parent(file) {
                            Some(directory) => directory,
                            None => "."@,
                        },
                        entry,
                    ),
                    None => self.resolve(entry),
                },
            ),
        }
    }

    /// Whether the loader accepts a manifest before it looks at the entry
    /// point: the manifest is valid where validation is strict, and the host
    /// can host the API version of the plugin.
    pub open spec fn accepts(self, manifest: ManifestView) -> bool {
        (self.strict_validation ==> manifest.valid()) && self.host_api_version.compatible_with(
            manifest.api_version,
        )
    }

    /// Whether `e` is the error with which the loader rejects a manifest
    /// before it looks at the entry point: the error of the validation where
    /// validation is strict and fails, else the mismatch of the API versions.
    pub open spec fn rejects_with(self, manifest: ManifestView, e: ErrorView) -> bool {
        if self.strict_validation && !manifest.valid() {
            manifest.rejected_with(e)
        } else {
            !self.host_api_version.compatible_with(manifest.api_version) && e
                == (ErrorView::ApiVersionMismatch {
                required: manifest.api_version.text(),
                provided: self.host_api_version.text(),
            })
        }
    }
}

impl Default for LoaderConfig {
    /// The default engine configuration and compile options, the API version
    /// of this host, no base path, plugins started, validation strict.
    fn default() -> (config: LoaderConfig)
        ensures
            config_grants(config@.engine_config) == default_grants(),
            config@.host_api_version == (ApiVersion { major: 0, minor: 18, patch: 0 }),
            config@.base_path is None,
            config@.auto_start,
            config@.strict_validation,
    {
        LoaderConfig {
            engine_config: default_engine_config(),
            compile_options: default_compile_options(),
            host_api_version: ApiVersion::default(),
            base_path: None,
            auto_start: true,
            strict_validation: true,
        }
    }
}

impl Clone for LoaderConfig {
    fn clone(&self) -> (copy: LoaderConfig)
        ensures
            copy@.alike(self@),
    {
        LoaderConfig {
            engine_config: config_clone(&self.engine_config),
            compile_options: compile_options_clone(&self.compile_options),
            host_api_version: self.host_api_version,
            base_path: clone_opt_text(&self.base_path),
            auto_start: self.auto_start,
            strict_validation: self.strict_validation,
        }
    }
}

impl LoaderConfig {
    /// The default configuration.
    pub fn new() -> (config: LoaderConfig)
        ensures
            config_grants(config@.engine_config) == default_grants(),
            config@.host_api_version == (ApiVersion { major: 0, minor: 18, patch: 0 }),
            config@.base_path is None,
            config@.auto_start,
            config@.strict_validation,
    {
        LoaderConfig::default()
    }

    /// Sets the engine configuration.
    pub fn with_engine_config(self, config: fusabi_host::EngineConfig) -> (changed: LoaderConfig)
        ensures
            changed@ == (LoaderConfigView { engine_config: config, ..self@ }),
    {
        let mut changed = self;
        changed.engine_config = config;
        changed
    }

    /// Sets the compile options.
    pub fn with_compile_options(self, options: fusabi_host::CompileOptions) -> (changed:
        LoaderConfig)
        ensures
            changed@ == (LoaderConfigView { compile_options: options, ..self@ }),
    {
        let mut changed = self;
        changed.compile_options = options;
        changed
    }

    /// Sets the API version of the host.
    pub fn with_host_api_version(self, version: ApiVersion) -> (changed: LoaderConfig)
        ensures
            changed@ == (LoaderConfigView { host_api_version: version, ..self@ }),
    {
        let mut changed = self;
        changed.host_api_version = version;
        changed
    }

    /// Sets the base path.
    pub fn with_base_path(self, path: &str) -> (changed: LoaderConfig)
        ensures
            changed@ == (LoaderConfigView { base_path: Some(path@), ..self@ }),
    {
        let mut changed = self;
        changed.base_path = Some(String::from_str(path));
        changed
    }

    /// Sets whether plugins are started after loading.
    pub fn with_auto_start(self, auto_start: bool) -> (changed: LoaderConfig)
        ensures
            changed@ == (LoaderConfigView { auto_start: auto_start, ..self@ }),
    {
        let mut changed = self;
        changed.auto_start = auto_start;
        changed
    }

    /// Sets whether manifests are validated before loading.
    pub fn with_strict_validation(self, strict: bool) -> (changed: LoaderConfig)
        ensures
            changed@ == (LoaderConfigView { strict_validation: strict, ..self@ }),
    {
        let mut changed = self;
        changed.strict_validation = strict;
        changed
    }

    /// A configuration for untrusted plugins: an engine configuration that
    /// grants nothing, production compile options, plugins not started,
    /// validation strict.
    pub fn strict() -> (config: LoaderConfig)
        ensures
            config_grants(config@.engine_config) == Set::<Seq<char>>::empty(),
            config@.host_api_version == (ApiVersion { major: 0, minor: 18, patch: 0 }),
            config@.base_path is None,
            !config@.auto_start,
            config@.strict_validation,
    {
        LoaderConfig {
            engine_config: strict_engine_config(),
            compile_options: production_compile_options(),
            host_api_version: ApiVersion::default(),
            base_path: None,
            auto_start: false,
            strict_validation: true,
        }
    }
}

/// The capabilities that the engine of a plugin is built with: those of the
/// loader's engine configuration and those that the manifest declares.
pub open spec fn effective_grants(base: Set<Seq<char>>, declared: Seq<Seq<char>>) -> Set<
    Seq<char>,
> {
    base.union(declared.to_set())
}

/// Plugin loader.
pub struct PluginLoader {
    config: LoaderConfig,
}

impl PluginLoader {
    /// The configuration.
    pub closed spec fn spec_config(&self) -> LoaderConfigView {
        self.config@
    }

    /// A loader with the given configuration.
    pub fn new(config: LoaderConfig) -> (loader: Result<PluginLoader, Error>)
        ensures
            loader is Ok,
            loader->Ok_0.spec_config() == config@,
    {
        Ok(PluginLoader { config })
    }

    /// The configuration.
    pub fn config(&self) -> (config: &LoaderConfig)
        ensures
            config@ == self.spec_config(),
    {
        &self.config
    }

    /// Resolves a path: an absolute path stands for itself, a relative path
    /// for the base path followed by it, or for itself where there is no base
    /// path.
    pub fn resolve_path(&self, path: &str) -> (resolved: String)
        ensures
            resolved@ == self.spec_config().resolve(path@),
    {
        if is_absolute(path) {
            String::from_str(path)
        } else {
            match &self.config.base_path {
                Some(base) => join(base.as_str(), path),
                None => String::from_str(path),
            }
        }
    }

    /// The path of the entry point of a manifest, if it has one.
    pub fn entry_path(&self, manifest: &Manifest, manifest_path: Option<&str>) -> (path: Option<
        String,
    >)
        ensures
            opt_text(path) == self.spec_config().entry_path(
                manifest@,
                match manifest_path {
                    Some(file) => Some(file@),
                    None => None,
                },
            ),
    {
        match manifest.entry_point() {
            None => None,
            Some(entry) => Some(
                match manifest_path {
                    Some(file) => {
                        let directory = match parent_of(file) {
                            Some(directory) => directory,
                            None => String::from_str("."),
                        };
                        join(directory.as_str(), entry)
                    },
                    None => self.resolve_path(entry),
                },
            ),
        }
    }

    /// Checks a manifest before anything is read: validates it where
    /// validation is strict, then checks that the host can host the API
    /// version of the plugin.
    pub fn check_manifest(&self, manifest: &Manifest) -> (checked: Result<(), Error>)
        ensures
            checked is Ok <==> self.spec_config().accepts(manifest@),
            checked matches Err(e) ==> self.spec_config().rejects_with(manifest@, e@),
    {
        if self.config.strict_validation {
            match manifest.validate() {
                Ok(()) => {},
                Err(e) => {
                    return Err(e);
                },
            }
        }
        if !manifest.is_compatible_with_host(&self.config.host_api_version) {
            return Err(
                Error::api_version_mismatch(
                    manifest.api_version.to_string().as_str(),
                    self.config.host_api_version.to_string().as_str(),
                ),
            );
        }
        Ok(())
    }

    /// The engine configuration for a plugin: the loader's engine
    /// configuration, with every capability granted that the manifest
    /// declares. A declared capability that is unknown to the host is an
    /// error; the first one is reported.
    pub fn build_engine_config(&self, manifest: &Manifest) -> (built: Result<
        fusabi_host::EngineConfig,
        Error,
    >)
        ensures
            built is Ok <==> all_known(manifest@.capabilities),
            built matches Ok(config) ==> config_grants(config) == effective_grants(
                config_grants(self.spec_config().engine_config),
                manifest@.capabilities,
            ),
            built matches Err(e) ==> exists|i: int|
                first_unknown_at(manifest@.capabilities, i) && e@ == ErrorView::InvalidManifest(
                    "unknown capability: "@ + manifest@.capabilities[i],
                ),
    {
        let mut config = config_clone(&self.config.engine_config);
        let ghost base = config_grants(self.config.engine_config);
        let ghost declared = manifest@.capabilities;
        let mut i: usize = 0;
        while i < manifest.capabilities.len()
            invariant
                i <= manifest.capabilities.len(),
                declared == manifest@.capabilities,
                base == config_grants(self.spec_config().engine_config),
                forall|k: int| 0 <= k < i ==> known_capability(#[trigger] declared[k]),
                config_grants(config) == effective_grants(base, declared.take(i as int)),
            decreases manifest.capabilities.len() - i,
        {
            let name = manifest.capabilities[i].as_str();
            if config_grant(&mut config, name).is_none() {
                assert(first_unknown_at(declared, i as int));
                return Err(Error::InvalidManifest(concat2("unknown capability: ", name)));
            }
            proof {
                assert(declared.take(i + 1).to_set() =~= declared.take(i as int).to_set().insert(
                    declared[i as int],
                )) by {
                    let shorter = declared.take(i as int);
                    let longer = declared.take(i + 1);
                    assert forall|c: Seq<char>| longer.to_set().contains(c) implies shorter.to_set().insert(
                        declared[i as int],
                    ).contains(c) by {
                        let k = choose|k: int| 0 <= k < longer.len() && longer[k] == c;
                        if k < i {
                            assert(shorter[k] == c);
                        }
                    }
                    assert forall|c: Seq<char>|
                        shorter.to_set().insert(declared[i as int]).contains(
                            c,
                        ) implies longer.to_set().contains(c) by {
                        if c == declared[i as int] {
                            assert(longer[i as int] == c);
                        } else {
                            let k = choose|k: int| 0 <= k < shorter.len() && shorter[k] == c;
                            assert(longer[k] == c);
                        }
                    }
                }
            }
            i += 1;
        }
        assert(declared.take(i as int) =~= declared);
        Ok(config)
    }

    /// Reloads a plugin.
    pub fn reload(&self, plugin: &mut Plugin) -> (reloaded: Result<(), Error>)
        requires
            old(plugin)@.info.reload_count < u64::MAX,
        ensures
            old(plugin)@.reloaded(final(plugin)@, outcome_view(reloaded)),
    {
        plugin.reload()
    }
}

/// The content of an entry point as the caller hands it over: the bytes, or
/// the text of the failure to compile them.
pub open spec fn content_view(content: Result<Vec<u8>, String>) -> Result<Seq<u8>, Seq<char>> {
    match content {
        Ok(bytes) => Ok(bytes@),
        Err(message) => Err(message@),
    }
}

/// Whether the loader takes the content of an entry point: the manifest has
/// no entry point, so that the content is not looked at, or the content is
/// bytecode; bytecode that the caller read from a bytecode file must have a
/// valid header.
pub open spec fn content_taken(
    manifest: ManifestView,
    content: Result<Seq<u8>, Seq<char>>,
) -> bool {
    manifest.entry_point() is Some ==> match content {
        Err(_) => false,
        Ok(bytes) => manifest.source is Some || bytecode_header_valid(bytes),
    }
}

/// Whether `e` is the error with which the loader refuses the content of an
/// entry point: a compilation error, with the text of the failure where the
/// caller reports one.
pub open spec fn content_refused_with(content: Result<Seq<u8>, Seq<char>>, e: ErrorView) -> bool {
    match content {
        Err(message) => e == ErrorView::Compilation(message),
        Ok(_) => e is Compilation,
    }
}

/// The bytecode that a loaded plugin holds: the content of the entry point,
/// where the manifest has an entry point.
pub open spec fn stored_bytecode(
    manifest: ManifestView,
    content: Result<Seq<u8>, Seq<char>>,
) -> Option<Seq<u8>> {
    match content {
        Ok(bytes) => if manifest.entry_point() is Some {
            Some(bytes)
        } else {
            None
        },
        Err(_) => None,
    }
}

/// What the engine of a plugin has run when the loader hands the plugin out:
/// `init()` where the loader starts plugins and the manifest publishes
/// `init`, else nothing.
pub open spec fn start_run(manifest: ManifestView, auto_start: bool) -> Seq<Seq<char>> {
    if auto_start && manifest.exports_function("init"@) {
        seq![hook_call("init"@)]
    } else {
        Seq::empty()
    }
}

/// Whether `plugin` is a plugin as the loader hands it out: created from the
/// manifest under the identifier, holding the bytecode and an engine that
/// was built with `grants`, never reloaded or called, and `Running` where the
/// loader starts plugins, else `Initialized`. Its engine has run `init()`
/// where the plugin was started and publishes it, and nothing else.
pub open spec fn freshly_loaded(
    plugin: PluginView,
    id: u64,
    manifest: ManifestView,
    bytecode: Option<Seq<u8>>,
    grants: Set<Seq<char>>,
    auto_start: bool,
) -> bool {
    &&& plugin.manifest == manifest
    &&& plugin.info.id == id
    &&& plugin.info.name == manifest.name
    &&& plugin.info.version == manifest.version
    &&& plugin.info.manifest_path is None
    &&& plugin.info.entry_path is None
    &&& plugin.info.last_reload is None
    &&& plugin.info.reload_count == 0
    &&& plugin.info.invocation_count == 0
    &&& plugin.info.state == if auto_start {
        LifecycleState::Running
    } else {
        LifecycleState::Initialized
    }
    &&& plugin.engine is Some
    &&& engine_grants(plugin.engine->Some_0) == grants
    &&& engine_ran(plugin.engine->Some_0) == start_run(manifest, auto_start)
    &&& plugin.bytecode == bytecode
}

/// The name of a plugin loaded from a file: the stem of the file name, or
/// `unnamed` where the path has none.
pub open spec fn name_from_path(path: Seq<char>) -> Seq<char> {
    match path_file_stem(path) {
        Some(stem) => stem,
        None => "unnamed"@,
    }
}

/// The outcome of a load with plugin and error taken by their values.
pub open spec fn load_view(loaded: Result<Plugin, Error>) -> Result<PluginView, ErrorView> {
    match loaded {
        Ok(plugin) => Ok(plugin@),
        Err(e) => Err(e@),
    }
}

impl LoaderConfigView {
    /// Whether a load from a manifest and the content of its entry point can
    /// end with `loaded`.
    ///
    /// A manifest that the loader does not accept ends the load with the
    /// error of the check. Else content that the loader does not take ends
    /// it with a compilation error. Else a declared capability that is
    /// unknown to the host ends it; the first one is reported. Else the
    /// engine decides: the plugin is handed out freshly loaded, its engine
    /// built with the capabilities of the loader's engine configuration and
    /// those that the manifest declares, or the load ends with an
    /// initialization failure.
    pub open spec fn loads_manifest(
        self,
        id: u64,
        manifest: ManifestView,
        content: Result<Seq<u8>, Seq<char>>,
        loaded: Result<PluginView, ErrorView>,
    ) -> bool {
        if !self.accepts(manifest) {
            loaded is Err && self.rejects_with(manifest, loaded->Err_0)
        } else if !content_taken(manifest, content) {
            loaded is Err && content_refused_with(content, loaded->Err_0)
        } else if !all_known(manifest.capabilities) {
            loaded is Err && exists|i: int|
                first_unknown_at(manifest.capabilities, i) && loaded->Err_0
                    == ErrorView::InvalidManifest(
                    "unknown capability: "@ + manifest.capabilities[i],
                )
        } else {
            match loaded {
                Ok(plugin) => freshly_loaded(
                    plugin,
                    id,
                    manifest,
                    stored_bytecode(manifest, content),
                    effective_grants(config_grants(self.engine_config), manifest.capabilities),
                    self.auto_start,
                ),
                Err(e) => e is InitializationFailed,
            }
        }
    }

    /// Whether a load from the source text `source`, which was read from
    /// `source_path`, can end with `loaded`.
    ///
    /// A text that the engine's compiler does not compile under the loader's
    /// options ends the load with a host error. Else the engine decides: the
    /// plugin is handed out freshly loaded, with a minimal manifest, named
    /// after the file and of version `0.0.0`, holding the bytecode that the
    /// compiler made of the text, its engine built with the capabilities of
    /// the loader's engine configuration; or the load ends with an
    /// initialization failure.
    pub open spec fn loads_source(
        self,
        id: u64,
        source_path: Seq<char>,
        source: Seq<char>,
        loaded: Result<PluginView, ErrorView>,
    ) -> bool {
        match compiled(source, self.compile_options) {
            None => loaded is Err && loaded->Err_0 is Host,
            Some(bytecode) => match loaded {
                Ok(plugin) => freshly_loaded(
                    plugin,
                    id,
                    ManifestView::minimal(name_from_path(self.resolve(source_path)), "0.0.0"@),
                    Some(bytecode),
                    config_grants(self.engine_config),
                    self.auto_start,
                ),
                Err(e) => e is InitializationFailed,
            },
        }
    }

    /// Whether a load from bytecode that was read from `bytecode_path` can
    /// end with `loaded`.
    ///
    /// Bytecode whose header is not valid ends the load with a host error.
    /// Else the engine decides: the plugin is handed out freshly loaded, with
    /// a minimal manifest, named after the file and of the compiler version
    /// that the engine reads from bytecode, holding the bytecode, its engine
    /// built with the capabilities of the loader's engine configuration; or
    /// the load ends with an initialization failure.
    pub open spec fn loads_bytecode(
        self,
        id: u64,
        bytecode_path: Seq<char>,
        bytecode: Seq<u8>,
        loaded: Result<PluginView, ErrorView>,
    ) -> bool {
        if !bytecode_header_valid(bytecode) {
            loaded is Err && loaded->Err_0 is Host
        } else {
            match loaded {
                Ok(plugin) => freshly_loaded(
                    plugin,
                    id,
                    ManifestView::minimal(
                        name_from_path(self.resolve(bytecode_path)),
                        bytecode_compiler_version(),
                    ),
                    Some(bytecode),
                    config_grants(self.engine_config),
                    self.auto_start,
                ),
                Err(e) => e is InitializationFailed,
            }
        }
    }
}

/// Configuration law: loaders whose configurations are alike load alike.
/// Whatever one of them can make of a manifest, of a source text or of
/// bytecode, the other can make of it too.
pub proof fn lemma_alike_loaders_load_alike(
    a: LoaderConfigView,
    b: LoaderConfigView,
    id: u64,
    manifest: ManifestView,
    content: Result<Seq<u8>, Seq<char>>,
    path: Seq<char>,
    source: Seq<char>,
    bytecode: Seq<u8>,
    loaded: Result<PluginView, ErrorView>,
)
    requires
        a.alike(b),
    ensures
        a.loads_manifest(id, manifest, content, loaded) == b.loads_manifest(
            id,
            manifest,
            content,
            loaded,
        ),
        a.loads_source(id, path, source, loaded) == b.loads_source(id, path, source, loaded),
        a.loads_bytecode(id, path, bytecode, loaded) == b.loads_bytecode(
            id,
            path,
            bytecode,
            loaded,
        ),
{
    assert(compiled(source, a.compile_options) == compiled(source, b.compile_options));
    assert(a.resolve(path) == b.resolve(path));
    assert(a.accepts(manifest) == b.accepts(manifest));
    assert forall|e: ErrorView| a.rejects_with(manifest, e) == b.rejects_with(manifest, e) by {}
}

/// Whether `up` is the plugin `created` after the loader initialized it with
/// an engine built with `grants` and started it where `auto_start` says so.
pub open spec fn brought_up(
    created: PluginView,
    grants: Set<Seq<char>>,
    auto_start: bool,
    up: PluginView,
) -> bool {
    &&& up.manifest == created.manifest
    &&& up.bytecode == created.bytecode
    &&& up.info == (PluginInfoView {
        state: if auto_start {
            LifecycleState::Running
        } else {
            LifecycleState::Initialized
        },
        ..created.info
    })
    &&& up.engine is Some
    &&& engine_grants(up.engine->Some_0) == grants
    &&& engine_ran(up.engine->Some_0) == start_run(created.manifest, auto_start)
}

impl PluginLoader {
    /// Initializes a plugin that was just created with the given engine
    /// configuration and starts it where the loader starts plugins.
    fn bring_up(&self, plugin: Plugin, engine_config: fusabi_host::EngineConfig) -> (loaded:
        Result<Plugin, Error>)
        requires
            plugin@.state() == LifecycleState::Created,
            plugin@.all_granted(config_grants(engine_config)),
        ensures
            match loaded {
                Ok(up) => brought_up(
                    plugin@,
                    config_grants(engine_config),
                    self.spec_config().auto_start,
                    up@,
                ),
                Err(e) => e@ is InitializationFailed,
            },
    {
        let mut plugin = plugin;
        match plugin.initialize(engine_config) {
            Ok(()) => {},
            Err(e) => {
                return Err(e);
            },
        }
        if self.config.auto_start {
            let ghost ready = plugin@;
            match plugin.start() {
                Ok(()) => {
                    proof {
                        let ran = ready.hook_run("init"@);
                        assert(Seq::<Seq<char>>::empty() + ran =~= ran);
                    }
                },
                Err(e) => {
                    return Err(e);
                },
            }
        }
        Ok(plugin)
    }

    /// Loads a plugin from a manifest and the content of its entry point.
    ///
    /// `content` is what the caller found at the path that
    /// [`PluginLoader::entry_path`] gives: for a source file, the bytecode
    /// that the engine compiled from it or the text of the compilation
    /// failure; for a bytecode file, its bytes. Where the manifest has no
    /// entry point the content is not looked at. The loader checks the
    /// manifest, takes the content (the header of a bytecode file is checked
    /// by the engine), grants the declared capabilities on top of its engine
    /// configuration, initializes the plugin under the identifier `id`, and
    /// starts it where it starts plugins. The first of these steps that fails
    /// ends the load.
    pub fn load_manifest(
        &self,
        id: u64,
        manifest: Manifest,
        content: Result<Vec<u8>, String>,
    ) -> (loaded: Result<Plugin, Error>)
        ensures
            self.spec_config().loads_manifest(
                id,
                manifest@,
                content_view(content),
                load_view(loaded),
            ),
    {
        match self.check_manifest(&manifest) {
            Ok(()) => {},
            Err(e) => {
                return Err(e);
            },
        }
        let mut plugin = Plugin::new(id, manifest.clone());
        if manifest.entry_point().is_some() {
            match content {
                Err(message) => {
                    return Err(Error::Compilation(message));
                },
                Ok(bytes) => {
                    if !manifest.uses_source() {
                        match validate_bytecode(bytes.as_slice()) {
                            Ok(_) => {},
                            Err(e) => {
                                return Err(Error::Compilation(host_error_text(&e)));
                            },
                        }
                    }
                    plugin.set_bytecode(bytes);
                },
            }
        }
        let engine_config = match self.build_engine_config(&manifest) {
            Ok(config) => config,
            Err(e) => {
                return Err(e);
            },
        };
        proof {
            let grants = config_grants(engine_config);
            let declared = manifest@.capabilities;
            assert forall|k: int| 0 <= k < declared.len() implies known_capability(
                #[trigger] declared[k],
            ) && grants.contains(declared[k]) by {
                assert(declared.to_set().contains(declared[k]));
            }
        }
        self.bring_up(plugin, engine_config)
    }

    /// Loads a plugin from source text that the caller read from
    /// `source_path`.
    ///
    /// The plugin gets a minimal manifest: the name is the stem of the
    /// resolved path and the version is `0.0.0`. The engine compiles the
    /// text under the loader's options; its failure is reported as a host
    /// error. The plugin holds the bytecode, is initialized with the loader's
    /// engine configuration under the identifier `id`, and started where the
    /// loader starts plugins.
    pub fn load_source(&self, id: u64, source_path: &str, source: &str) -> (loaded: Result<
        Plugin,
        Error,
    >)
        ensures
            self.spec_config().loads_source(id, source_path@, source@, load_view(loaded)),
    {
        let resolved = self.resolve_path(source_path);
        let name = match file_stem_of(resolved.as_str()) {
            Some(stem) => stem,
            None => String::from_str("unnamed"),
        };
        let manifest = Manifest::new(name.as_str(), "0.0.0");
        let mut plugin = Plugin::new(id, manifest);
        match compile_source(source, &self.config.compile_options) {
            Ok(bytecode) => {
                plugin.set_bytecode(bytecode);
            },
            Err(e) => {
                return Err(Error::Host(e));
            },
        }
        self.bring_up(plugin, config_clone(&self.config.engine_config))
    }

    /// Loads a plugin from bytecode that the caller read from
    /// `bytecode_path`.
    ///
    /// The engine checks the header of the bytecode; a header that is not
    /// valid is reported as a host error. The plugin gets a minimal manifest:
    /// the name is the stem of the resolved path and the version is the
    /// compiler version that the engine reads from the bytecode. The plugin
    /// is initialized with the loader's engine configuration under the
    /// identifier `id`, and started where the loader starts plugins.
    pub fn load_bytecode_file(&self, id: u64, bytecode_path: &str, bytecode: Vec<u8>) -> (loaded:
        Result<Plugin, Error>)
        ensures
            self.spec_config().loads_bytecode(id, bytecode_path@, bytecode@, load_view(loaded)),
    {
        let resolved = self.resolve_path(bytecode_path);
        let version = match validate_bytecode(bytecode.as_slice()) {
            Ok(version) => version,
            Err(e) => {
                return Err(Error::Host(e));
            },
        };
        let name = match file_stem_of(resolved.as_str()) {
            Some(stem) => stem,
            None => String::from_str("unnamed"),
        };
        let manifest = Manifest::new(name.as_str(), version.as_str());
        let mut plugin = Plugin::new(id, manifest);
        plugin.set_bytecode(bytecode);
        self.bring_up(plugin, config_clone(&self.config.engine_config))
    }
}

} // verus!
