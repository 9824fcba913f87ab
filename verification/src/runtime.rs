//! Plugin runtime: a loader and a registry behind one entry point, with
//! lifecycle hooks.

use vstd::prelude::*;
use crate::error::{outcome_view, Error, ErrorView};
use crate::lifecycle::{LifecycleEvent, LifecycleHooks, LifecycleState};
use crate::loader::{content_view, load_view, LoaderConfig, LoaderConfigView, PluginLoader};
use crate::host::{config_grants, default_grants};
use crate::manifest::{ApiVersion, Manifest};
use crate::plugin::{Plugin, PluginInfo, PluginInfoView, PluginView};
use crate::registry::{
    answer_views, borrowed_views, broadcast_to, calls_countable, count_in, is_in,
    lemma_registered_is_found, outcome_views, position_of, reloaded_all, reloads_countable,
    started_all, stopped_all, survives, without, PluginRegistry, RegistryConfig, RegistryStats,
};
use crate::text::{chars_of, clone_texts, texts};

verus! {

/// Configuration of the plugin runtime.
#[derive(Debug)]
pub struct RuntimeConfig {
    /// Loader configuration.
    pub loader: LoaderConfig,
    /// Registry configuration.
    pub registry: RegistryConfig,
    /// Plugin directories to scan.
    pub plugin_dirs: Vec<String>,
    /// Whether plugins are discovered in the plugin directories.
    pub auto_discover: bool,
    /// File patterns of plugin manifests.
    pub plugin_patterns: Vec<String>,
}

/// Mathematical value of a [`RuntimeConfig`].
pub struct RuntimeConfigView {
    pub loader: LoaderConfigView,
    pub registry: RegistryConfig,
    pub plugin_dirs: Seq<Seq<char>>,
    pub auto_discover: bool,
    pub plugin_patterns: Seq<Seq<char>>,
}

impl View for RuntimeConfig {
    type V = RuntimeConfigView;

    open spec fn view(&self) -> RuntimeConfigView {
        RuntimeConfigView {
            loader: self.loader@,
            registry: self.registry,
            plugin_dirs: texts(self.plugin_dirs@),
            auto_discover: self.auto_discover,
            plugin_patterns: texts(self.plugin_patterns@),
        }
    }
}

/// The file patterns of plugin manifests that the default configuration
/// looks for.
pub open spec fn default_patterns() -> Seq<Seq<char>> {
    seq!["*.toml"@, "plugin.toml"@, "fusabi.toml"@]
}

impl RuntimeConfigView {
    /// Whether this is the default configuration: the default loader and
    /// registry settings, no plugin directory, no discovery, the default
    /// patterns.
    pub open spec fn is_default(self) -> bool {
        &&& self.registry == (RegistryConfig {
            max_plugins: 100,
            allow_overwrite: false,
            auto_unload_stopped: false,
        })
        &&& config_grants(self.loader.engine_config) == default_grants()
        &&& self.loader.host_api_version == (ApiVersion { major: 0, minor: 18, patch: 0 })
        &&& self.loader.auto_start
        &&& self.loader.strict_validation
        &&& self.loader.base_path is None
        &&& self.plugin_dirs == Seq::<Seq<char>>::empty()
        &&& !self.auto_discover
        &&& self.plugin_patterns == default_patterns()
    }
}

impl Default for RuntimeConfig {
    /// The default loader and registry configurations, no plugin directory,
    /// no discovery, the default patterns.
    fn default() -> (config: RuntimeConfig)
        ensures
            config@.is_default(),
    {
        let mut plugin_patterns: Vec<String> = Vec::new();
        plugin_patterns.push(String::from_str("*.toml"));
        plugin_patterns.push(String::from_str("plugin.toml"));
        plugin_patterns.push(String::from_str("fusabi.toml"));
        let plugin_dirs: Vec<String> = Vec::new();
        let config = RuntimeConfig {
            loader: LoaderConfig::default(),
            registry: RegistryConfig::default(),
            plugin_dirs,
            auto_discover: false,
            plugin_patterns,
        };
        assert(config@.plugin_patterns =~= default_patterns());
        assert(config@.plugin_dirs =~= Seq::<Seq<char>>::empty());
        config
    }
}

impl Clone for RuntimeConfig {
    fn clone(&self) -> (copy: RuntimeConfig)
        ensures
            copy@.registry == self@.registry,
            copy@.plugin_dirs == self@.plugin_dirs,
            copy@.auto_discover == self@.auto_discover,
            copy@.plugin_patterns == self@.plugin_patterns,
            copy@.loader.alike(self@.loader),
    {
        RuntimeConfig {
            loader: self.loader.clone(),
            registry: self.registry,
            plugin_dirs: clone_texts(&self.plugin_dirs),
            auto_discover: self.auto_discover,
            plugin_patterns: clone_texts(&self.plugin_patterns),
        }
    }
}

impl RuntimeConfig {
    /// The default configuration.
    pub fn new() -> (config: RuntimeConfig)
        ensures
            config@.is_default(),
    {
        RuntimeConfig::default()
    }

    /// Sets the loader configuration.
    pub fn with_loader(self, loader: LoaderConfig) -> (config: RuntimeConfig)
        ensures
            config@ == (RuntimeConfigView { loader: loader@, ..self@ }),
    {
        let mut config = self;
        config.loader = loader;
        config
    }

    /// Sets the registry configuration.
    pub fn with_registry(self, registry: RegistryConfig) -> (config: RuntimeConfig)
        ensures
            config@ == (RuntimeConfigView { registry: registry, ..self@ }),
    {
        let mut config = self;
        config.registry = registry;
        config
    }

    /// Adds a plugin directory.
    pub fn with_plugin_dir(self, dir: &str) -> (config: RuntimeConfig)
        ensures
            config@ == (RuntimeConfigView {
                plugin_dirs: self@.plugin_dirs.push(dir@),
                ..self@
            }),
    {
        let mut config = self;
        config.plugin_dirs.push(String::from_str(dir));
        assert(texts(config.plugin_dirs@) =~= texts(self.plugin_dirs@).push(dir@));
        config
    }

    /// Enables or disables discovery.
    pub fn with_auto_discover(self, auto: bool) -> (config: RuntimeConfig)
        ensures
            config@ == (RuntimeConfigView { auto_discover: auto, ..self@ }),
    {
        let mut config = self;
        config.auto_discover = auto;
        config
    }

    /// Sets the file patterns of plugin manifests.
    pub fn with_plugin_patterns(self, patterns: Vec<String>) -> (config: RuntimeConfig)
        ensures
            config@ == (RuntimeConfigView { plugin_patterns: texts(patterns@), ..self@ }),
    {
        let mut config = self;
        config.plugin_patterns = patterns;
        config
    }
}

/// Whether a file name fits a file pattern: a pattern that begins with `*`
/// fits every name that ends with the rest of the pattern, every other
/// pattern fits the name that equals it.
pub open spec fn pattern_fits(name: Seq<char>, pattern: Seq<char>) -> bool {
    if pattern.len() > 0 && pattern[0] == '*' {
        pattern.len() - 1 <= name.len() && name.skip(name.len() - (pattern.len() - 1))
            == pattern.skip(1)
    } else {
        name == pattern
    }
}

/// Whether the file name `name` fits the file pattern `pattern`.
pub fn fits_pattern(name: &str, pattern: &str) -> (fits: bool)
    ensures
        fits == pattern_fits(name@, pattern@),
{
    let file = chars_of(name);
    let form = chars_of(pattern);
    let starred = form.len() > 0 && form[0] == '*';
    let skipped: usize = if starred {
        1
    } else {
        0
    };
    let length: usize = form.len() - skipped;
    if length > file.len() || (!starred && length != file.len()) {
        return false;
    }
    let offset: usize = file.len() - length;
    let ghost tail = file@.skip(offset as int);
    let ghost wanted = form@.skip(skipped as int);
    let mut i: usize = 0;
    while i < length
        invariant
            i <= length,
            file@ == name@,
            form@ == pattern@,
            starred == (form.len() > 0 && form[0] == '*'),
            skipped == if starred {
                1usize
            } else {
                0usize
            },
            starred || length == file.len(),
            length == form.len() - skipped,
            offset == file.len() - length,
            length <= file.len(),
            tail == file@.skip(offset as int),
            wanted == form@.skip(skipped as int),
            forall|k: int| 0 <= k < i ==> tail[k] == wanted[k],
        decreases length - i,
    {
        if file[offset + i] != form[skipped + i] {
            proof {
                assert(tail[i as int] != wanted[i as int]);
                if !starred {
                    assert(name@[i as int] != pattern@[i as int]);
                }
            }
            return false;
        }
        i += 1;
    }
    assert(tail =~= wanted);
    proof {
        if !starred {
            assert(file@.skip(0) =~= file@);
            assert(form@.skip(0) =~= form@);
        }
    }
    true
}

/// The outcome of a load by the runtime with information and error taken by
/// their values.
pub open spec fn info_view(loaded: Result<PluginInfo, Error>) -> Result<
    PluginInfoView,
    ErrorView,
> {
    match loaded {
        Ok(info) => Ok(info@),
        Err(e) => Err(e@),
    }
}

/// Plugin runtime.
pub struct PluginRuntime {
    config: RuntimeConfig,
    loader: PluginLoader,
    registry: PluginRegistry,
    hooks: LifecycleHooks,
}

impl PluginRuntime {
    /// The configuration.
    pub closed spec fn spec_config(&self) -> RuntimeConfigView {
        self.config@
    }

    /// The loader.
    pub closed spec fn spec_loader(&self) -> PluginLoader {
        self.loader
    }

    /// The registry.
    pub closed spec fn spec_registry(&self) -> PluginRegistry {
        self.registry
    }

    /// The hooks for lifecycle events.
    pub closed spec fn spec_hooks(&self) -> LifecycleHooks {
        self.hooks
    }

    /// The registered plugins, in the order of enumeration.
    pub open spec fn plugin_views(&self) -> Seq<PluginView> {
        self.spec_registry().plugins()
    }

    /// Whether the runtime is well formed: its registry is.
    pub open spec fn wf(&self) -> bool {
        self.spec_registry().wf()
    }

    /// A runtime with the given configuration and without plugins.
    pub fn new(config: RuntimeConfig) -> (runtime: Result<PluginRuntime, Error>)
        ensures
            runtime is Ok,
            runtime->Ok_0.wf(),
            runtime->Ok_0.spec_config() == config@,
            runtime->Ok_0.plugin_views() == Seq::<PluginView>::empty(),
            runtime->Ok_0.spec_loader().spec_config().alike(config@.loader),
            runtime->Ok_0.spec_registry().spec_config() == config@.registry,
            runtime->Ok_0.spec_hooks().handler_count() == 0,
    {
        let loader = match PluginLoader::new(config.loader.clone()) {
            Ok(loader) => loader,
            Err(e) => {
                return Err(e);
            },
        };
        let registry = PluginRegistry::new(config.registry);
        Ok(PluginRuntime { config, loader, registry, hooks: LifecycleHooks::new() })
    }

    /// A runtime with the default configuration.
    pub fn default_config() -> (runtime: Result<PluginRuntime, Error>)
        ensures
            runtime is Ok,
            runtime->Ok_0.wf(),
            runtime->Ok_0.spec_config().is_default(),
            runtime->Ok_0.spec_loader().spec_config().alike(runtime->Ok_0.spec_config().loader),
            runtime->Ok_0.spec_registry().spec_config() == runtime->Ok_0.spec_config().registry,
            runtime->Ok_0.plugin_views() == Seq::<PluginView>::empty(),
            runtime->Ok_0.spec_hooks().handler_count() == 0,
    {
        PluginRuntime::new(RuntimeConfig::default())
    }

    /// The configuration.
    pub fn config(&self) -> (config: &RuntimeConfig)
        ensures
            config@ == self.spec_config(),
    {
        &self.config
    }

    /// The loader.
    pub fn loader(&self) -> (loader: &PluginLoader)
        ensures
            *loader == self.spec_loader(),
    {
        &self.loader
    }

    /// The registry.
    pub fn registry(&self) -> (registry: &PluginRegistry)
        ensures
            *registry == self.spec_registry(),
    {
        &self.registry
    }

    /// Adds a subscriber of lifecycle events. The subscriber must accept
    /// every event.
    pub fn on_event<F>(&mut self, handler: F) where F: Fn(&LifecycleEvent) + Send + Sync + 'static
        requires
            forall|event: &LifecycleEvent| call_requires(handler, (event,)),
        ensures
            final(self).spec_hooks().handler_count() == old(self).spec_hooks().handler_count() + 1,
            forall|event: LifecycleEvent|
                #[trigger] final(self).spec_hooks().delivered(event) == (old(self).spec_hooks()
                    .delivered(event) && call_ensures(handler, (&event,), ())),
            final(self).spec_registry() == old(self).spec_registry(),
            final(self).spec_loader() == old(self).spec_loader(),
            final(self).spec_config() == old(self).spec_config(),
    {
        self.hooks.on_event(handler);
    }

    /// Whether this runtime is the runtime `before` after a load that the
    /// loader ended with `attempt` and the runtime with `loaded`: a failure
    /// of the loader and a refusal of the registry leave the plugins as they
    /// were and are reported; else the plugin is registered and its
    /// information handed out.
    pub open spec fn enrolled(
        &self,
        before: PluginRuntime,
        attempt: Result<PluginView, ErrorView>,
        loaded: Result<PluginInfoView, ErrorView>,
    ) -> bool {
        match attempt {
            Err(e) => loaded == Err::<PluginInfoView, ErrorView>(e) && self.plugin_views()
                == before.plugin_views(),
            Ok(plugin) => match before.spec_registry().refusal(plugin) {
                Some(e) => loaded == Err::<PluginInfoView, ErrorView>(e) && self.plugin_views()
                    == before.plugin_views(),
                None => loaded == Ok::<PluginInfoView, ErrorView>(plugin.info)
                    && self.plugin_views() == before.spec_registry().admitting(plugin)
                    && self.spec_registry().has(plugin.manifest.name)
                    && self.spec_registry().plugin(plugin.manifest.name) == plugin,
            },
        }
    }

    /// Registers what the loader handed out and gives the information of the
    /// plugin.
    fn enroll(&mut self, attempt: Result<Plugin, Error>) -> (loaded: Result<PluginInfo, Error>)
        requires
            old(self).wf(),
        ensures
            final(self).wf(),
            final(self).spec_loader() == old(self).spec_loader(),
            final(self).spec_config() == old(self).spec_config(),
            final(self).spec_hooks() == old(self).spec_hooks(),
            final(self).spec_registry().spec_config() == old(self).spec_registry().spec_config(),
            final(self).enrolled(*old(self), load_view(attempt), info_view(loaded)),
    {
        let plugin = match attempt {
            Ok(plugin) => plugin,
            Err(e) => {
                return Err(e);
            },
        };
        let info = plugin.info();
        match self.registry.register(plugin) {
            Ok(()) => {
                proof {
                    lemma_registered_is_found(old(self).registry, self.registry, plugin@);
                }
                Ok(info)
            },
            Err(e) => Err(e),
        }
    }

    /// Loads a plugin from a manifest and the content of its entry point, as
    /// [`PluginLoader::load_manifest`] does, and registers it. Gives the
    /// information of the plugin.
    pub fn load_manifest(
        &mut self,
        id: u64,
        manifest: Manifest,
        content: Result<Vec<u8>, String>,
    ) -> (loaded: Result<PluginInfo, Error>)
        requires
            old(self).wf(),
        ensures
            final(self).wf(),
            final(self).spec_loader() == old(self).spec_loader(),
            final(self).spec_config() == old(self).spec_config(),
            final(self).spec_hooks() == old(self).spec_hooks(),
            final(self).spec_registry().spec_config() == old(self).spec_registry().spec_config(),
            exists|attempt: Result<PluginView, ErrorView>|
                old(self).spec_loader().spec_config().loads_manifest(
                    id,
                    manifest@,
                    content_view(content),
                    attempt,
                ) && #[trigger] final(self).enrolled(*old(self), attempt, info_view(loaded)),
    {
        let attempt = self.loader.load_manifest(id, manifest, content);
        let ghost ended = load_view(attempt);
        let loaded = self.enroll(attempt);
        assert(self.enrolled(*old(self), ended, info_view(loaded)));
        loaded
    }

    /// Loads a plugin from source text, as [`PluginLoader::load_source`]
    /// does, and registers it. Gives the information of the plugin.
    pub fn load_source(&mut self, id: u64, source_path: &str, source: &str) -> (loaded: Result<
        PluginInfo,
        Error,
    >)
        requires
            old(self).wf(),
        ensures
            final(self).wf(),
            final(self).spec_loader() == old(self).spec_loader(),
            final(self).spec_config() == old(self).spec_config(),
            final(self).spec_hooks() == old(self).spec_hooks(),
            final(self).spec_registry().spec_config() == old(self).spec_registry().spec_config(),
            exists|attempt: Result<PluginView, ErrorView>|
                old(self).spec_loader().spec_config().loads_source(
                    id,
                    source_path@,
                    source@,
                    attempt,
                )
                    && #[trigger] final(self).enrolled(*old(self), attempt, info_view(loaded)),
    {
        let attempt = self.loader.load_source(id, source_path, source);
        let ghost ended = load_view(attempt);
        let loaded = self.enroll(attempt);
        assert(self.enrolled(*old(self), ended, info_view(loaded)));
        loaded
    }

    /// Loads a plugin from bytecode, as
    /// [`PluginLoader::load_bytecode_file`] does, and registers it. Gives
    /// the information of the plugin.
    pub fn load_bytecode(&mut self, id: u64, bytecode_path: &str, bytecode: Vec<u8>) -> (loaded:
        Result<PluginInfo, Error>)
        requires
            old(self).wf(),
        ensures
            final(self).wf(),
            final(self).spec_loader() == old(self).spec_loader(),
            final(self).spec_config() == old(self).spec_config(),
            final(self).spec_hooks() == old(self).spec_hooks(),
            final(self).spec_registry().spec_config() == old(self).spec_registry().spec_config(),
            exists|attempt: Result<PluginView, ErrorView>|
                old(self).spec_loader().spec_config().loads_bytecode(
                    id,
                    bytecode_path@,
                    bytecode@,
                    attempt,
                ) && #[trigger] final(self).enrolled(*old(self), attempt, info_view(loaded)),
    {
        let attempt = self.loader.load_bytecode_file(id, bytecode_path, bytecode);
        let ghost ended = load_view(attempt);
        let loaded = self.enroll(attempt);
        assert(self.enrolled(*old(self), ended, info_view(loaded)));
        loaded
    }

    /// Unloads the plugin of a name and takes it out of the registry.
    pub fn unload(&mut self, name: &str) -> (unloaded: Result<(), Error>)
        requires
            old(self).wf(),
        ensures
            final(self).wf(),
            final(self).spec_loader() == old(self).spec_loader(),
            final(self).spec_config() == old(self).spec_config(),
            final(self).spec_hooks() == old(self).spec_hooks(),
            final(self).spec_registry().spec_config() == old(self).spec_registry().spec_config(),
            !final(self).spec_registry().has(name@),
            match position_of(old(self).plugin_views(), name@) {
                None => unloaded is Err && unloaded->Err_0@ == ErrorView::PluginNotFound(name@)
                    && final(self).plugin_views() == old(self).plugin_views(),
                Some(i) => unloaded is Ok && old(self).plugin_views()[i].cleaned_up()
                    && final(self).plugin_views() == without(old(self).plugin_views(), i),
            },
    {
        match self.registry.unregister(name) {
            Ok(_) => Ok(()),
            Err(e) => Err(e),
        }
    }

    /// The registered plugin of a name.
    pub fn get(&self, name: &str) -> (found: Option<&Plugin>)
        requires
            self.wf(),
        ensures
            match found {
                Some(plugin) => self.spec_registry().has(name@) && plugin@
                    == self.spec_registry().plugin(name@),
                None => !self.spec_registry().has(name@),
            },
    {
        self.registry.get(name)
    }

    /// Whether a plugin of that name is registered.
    pub fn has_plugin(&self, name: &str) -> (present: bool)
        requires
            self.wf(),
        ensures
            present == self.spec_registry().has(name@),
    {
        self.registry.contains(name)
    }

    /// The registered plugins, in the order of enumeration.
    pub fn plugins(&self) -> (all: Vec<&Plugin>)
        ensures
            borrowed_views(all@) == self.plugin_views(),
    {
        self.registry.all()
    }

    /// The running plugins, in the order of enumeration.
    pub fn running(&self) -> (found: Vec<&Plugin>)
        ensures
            borrowed_views(found@) == self.plugin_views().filter(is_in(LifecycleState::Running)),
    {
        self.registry.running()
    }

    /// The number of registered plugins.
    pub fn plugin_count(&self) -> (n: usize)
        ensures
            n == self.plugin_views().len(),
    {
        self.registry.len()
    }

    /// The statistics of the registry.
    pub fn stats(&self) -> (stats: RegistryStats)
        ensures
            stats.total == self.plugin_views().len(),
            stats.running == count_in(self.plugin_views(), LifecycleState::Running),
            stats.stopped == count_in(self.plugin_views(), LifecycleState::Stopped),
            stats.error == count_in(self.plugin_views(), LifecycleState::Error),
            stats.unloaded == count_in(self.plugin_views(), LifecycleState::Unloaded),
    {
        self.registry.stats()
    }

    /// Starts the plugin of a name and reports the start to the hooks.
    pub fn start(&mut self, name: &str) -> (started: Result<(), Error>)
        requires
            old(self).wf(),
        ensures
            final(self).wf(),
            final(self).spec_loader() == old(self).spec_loader(),
            final(self).spec_config() == old(self).spec_config(),
            final(self).spec_hooks() == old(self).spec_hooks(),
            final(self).spec_registry().spec_config() == old(self).spec_registry().spec_config(),
            match position_of(old(self).plugin_views(), name@) {
                None => started is Err && started->Err_0@ == ErrorView::PluginNotFound(name@)
                    && final(self).plugin_views() == old(self).plugin_views(),
                Some(i) => old(self).plugin_views()[i].started(
                    final(self).plugin_views()[i],
                    outcome_view(started),
                ) && final(self).plugin_views() == old(self).plugin_views().update(
                    i,
                    final(self).plugin_views()[i],
                ),
            },
            started is Ok ==> exists|sent: LifecycleEvent|
                #[trigger] final(self).spec_hooks().delivered(sent) && sent@ is Started
                    && sent@.plugin_name() == name@,
    {
        match self.registry.start(name) {
            Ok(()) => {
                self.hooks.emit_started(name);
                assert(self.spec_hooks() == self.hooks);
                Ok(())
            },
            Err(e) => Err(e),
        }
    }

    /// Stops the plugin of a name and reports the stop to the hooks.
    pub fn stop(&mut self, name: &str) -> (stopped: Result<(), Error>)
        requires
            old(self).wf(),
        ensures
            final(self).wf(),
            final(self).spec_loader() == old(self).spec_loader(),
            final(self).spec_config() == old(self).spec_config(),
            final(self).spec_hooks() == old(self).spec_hooks(),
            final(self).spec_registry().spec_config() == old(self).spec_registry().spec_config(),
            match position_of(old(self).plugin_views(), name@) {
                None => stopped is Err && stopped->Err_0@ == ErrorView::PluginNotFound(name@)
                    && final(self).plugin_views() == old(self).plugin_views(),
                Some(i) => old(self).plugin_views()[i].stopped(
                    final(self).plugin_views()[i],
                    outcome_view(stopped),
                ) && final(self).plugin_views() == old(self).plugin_views().update(
                    i,
                    final(self).plugin_views()[i],
                ),
            },
            stopped is Ok ==> exists|sent: LifecycleEvent|
                #[trigger] final(self).spec_hooks().delivered(sent) && sent@ is Stopped
                    && sent@.plugin_name() == name@,
    {
        match self.registry.stop(name) {
            Ok(()) => {
                self.hooks.emit_stopped(name);
                assert(self.spec_hooks() == self.hooks);
                Ok(())
            },
            Err(e) => Err(e),
        }
    }

    /// Reloads the plugin of a name.
    pub fn reload(&mut self, name: &str) -> (reloaded: Result<(), Error>)
        requires
            old(self).wf(),
            reloads_countable(old(self).plugin_views()),
        ensures
            final(self).wf(),
            final(self).spec_loader() == old(self).spec_loader(),
            final(self).spec_config() == old(self).spec_config(),
            final(self).spec_hooks() == old(self).spec_hooks(),
            final(self).spec_registry().spec_config() == old(self).spec_registry().spec_config(),
            match position_of(old(self).plugin_views(), name@) {
                None => reloaded is Err && reloaded->Err_0@ == ErrorView::PluginNotFound(name@)
                    && final(self).plugin_views() == old(self).plugin_views(),
                Some(i) => old(self).plugin_views()[i].reloaded(
                    final(self).plugin_views()[i],
                    outcome_view(reloaded),
                ) && final(self).plugin_views() == old(self).plugin_views().update(
                    i,
                    final(self).plugin_views()[i],
                ),
            },
    {
        self.registry.reload(name)
    }

    /// Starts every initialized plugin.
    pub fn start_all(&mut self) -> (results: Vec<Result<(), Error>>)
        requires
            old(self).wf(),
        ensures
            final(self).wf(),
            final(self).spec_loader() == old(self).spec_loader(),
            final(self).spec_config() == old(self).spec_config(),
            final(self).spec_hooks() == old(self).spec_hooks(),
            final(self).spec_registry().spec_config() == old(self).spec_registry().spec_config(),
            started_all(
                old(self).plugin_views(),
                final(self).plugin_views(),
                outcome_views(results@),
            ),
    {
        self.registry.start_all()
    }

    /// Stops every running plugin.
    pub fn stop_all(&mut self) -> (results: Vec<Result<(), Error>>)
        requires
            old(self).wf(),
        ensures
            final(self).wf(),
            final(self).spec_loader() == old(self).spec_loader(),
            final(self).spec_config() == old(self).spec_config(),
            final(self).spec_hooks() == old(self).spec_hooks(),
            final(self).spec_registry().spec_config() == old(self).spec_registry().spec_config(),
            stopped_all(
                old(self).plugin_views(),
                final(self).plugin_views(),
                outcome_views(results@),
            ),
    {
        self.registry.stop_all()
    }

    /// Reloads every plugin.
    pub fn reload_all(&mut self) -> (results: Vec<Result<(), Error>>)
        requires
            old(self).wf(),
            reloads_countable(old(self).plugin_views()),
        ensures
            final(self).wf(),
            final(self).spec_loader() == old(self).spec_loader(),
            final(self).spec_config() == old(self).spec_config(),
            final(self).spec_hooks() == old(self).spec_hooks(),
            final(self).spec_registry().spec_config() == old(self).spec_registry().spec_config(),
            reloaded_all(
                old(self).plugin_views(),
                final(self).plugin_views(),
                outcome_views(results@),
            ),
    {
        self.registry.reload_all()
    }

    /// Calls a function of the plugin of a name.
    pub fn call(
        &mut self,
        plugin_name: &str,
        function: &str,
        args: &[fusabi_host::Value],
    ) -> (returned: Result<fusabi_host::Value, Error>)
        requires
            old(self).wf(),
            calls_countable(old(self).plugin_views()),
        ensures
            final(self).wf(),
            final(self).spec_loader() == old(self).spec_loader(),
            final(self).spec_config() == old(self).spec_config(),
            final(self).spec_hooks() == old(self).spec_hooks(),
            final(self).spec_registry().spec_config() == old(self).spec_registry().spec_config(),
            match position_of(old(self).plugin_views(), plugin_name@) {
                None => returned is Err && returned->Err_0@ == ErrorView::PluginNotFound(
                    plugin_name@,
                ) && final(self).plugin_views() == old(self).plugin_views(),
                Some(i) => old(self).plugin_views()[i].called(
                    final(self).plugin_views()[i],
                    function@,
                    args@.len(),
                    outcome_view(returned),
                ) && final(self).plugin_views() == old(self).plugin_views().update(
                    i,
                    final(self).plugin_views()[i],
                ),
            },
    {
        proof {
            if self.registry.has(plugin_name@) {
                let i = position_of(self.registry.plugins(), plugin_name@)->Some_0;
            }
        }
        self.registry.call(plugin_name, function, args)
    }

    /// Calls a function on every running plugin that publishes it, and gives
    /// the name and the result of each.
    pub fn broadcast(&mut self, function: &str, args: &[fusabi_host::Value]) -> (results: Vec<
        (String, Result<fusabi_host::Value, Error>),
    >)
        requires
            old(self).wf(),
            calls_countable(old(self).plugin_views()),
        ensures
            final(self).wf(),
            final(self).spec_loader() == old(self).spec_loader(),
            final(self).spec_config() == old(self).spec_config(),
            final(self).spec_hooks() == old(self).spec_hooks(),
            final(self).spec_registry().spec_config() == old(self).spec_registry().spec_config(),
            broadcast_to(
                old(self).plugin_views(),
                final(self).plugin_views(),
                function@,
                args@.len(),
                answer_views(results@),
            ),
    {
        self.registry.broadcast(function, args)
    }

    /// Removes the unloaded plugins from the registry, and the stopped ones
    /// where the registry configuration says so. Gives the number removed.
    pub fn cleanup(&mut self) -> (removed: usize)
        requires
            old(self).wf(),
        ensures
            final(self).wf(),
            final(self).spec_loader() == old(self).spec_loader(),
            final(self).spec_config() == old(self).spec_config(),
            final(self).spec_hooks() == old(self).spec_hooks(),
            final(self).spec_registry().spec_config() == old(self).spec_registry().spec_config(),
            final(self).plugin_views() == old(self).plugin_views().filter(
                survives(old(self).spec_registry().spec_config().auto_unload_stopped),
            ),
            removed == old(self).plugin_views().len() - final(self).plugin_views().len(),
    {
        self.registry.cleanup()
    }

    /// Shuts the runtime down: stops every running plugin, then unloads
    /// every plugin and empties the registry.
    pub fn shutdown(&mut self)
        requires
            old(self).wf(),
        ensures
            final(self).wf(),
            final(self).spec_loader() == old(self).spec_loader(),
            final(self).spec_config() == old(self).spec_config(),
            final(self).spec_hooks() == old(self).spec_hooks(),
            final(self).spec_registry().spec_config() == old(self).spec_registry().spec_config(),
            final(self).plugin_views() == Seq::<PluginView>::empty(),
            exists|stopped: Seq<PluginView>, results: Seq<Result<(), ErrorView>>| #[trigger]
                stopped_all(old(self).plugin_views(), stopped, results),
    {
        let results = self.registry.stop_all();
        assert(stopped_all(
            old(self).plugin_views(),
            self.plugin_views(),
            outcome_views(results@),
        ));
        self.registry.unload_all();
    }
}

} // verus!
