//! Plugin registry: plugins by name, with admission, enumeration, bulk
//! lifecycle operations and queries.
//!
//! The registry owns its plugins. It keeps them in slots and finds the slot
//! of a name through a name index; the order of the slots is the order in
//! which the registry enumerates its plugins.

use vstd::prelude::*;
use crate::error::{outcome_view, Error, ErrorView};
use crate::index::{
    index_clear, index_contains, index_entries, index_get, index_insert, index_new, index_remove,
};
use crate::lifecycle::{LifecycleEvent, LifecycleHooks, LifecycleState};
use crate::plugin::{Plugin, PluginInfo, PluginInfoView, PluginView};
use crate::text::{lemma_filter_push, texts};

verus! {

/// Configuration of the plugin registry.
#[derive(Debug, Clone, Copy, PartialEq, Eq, Structural)]
pub struct RegistryConfig {
    /// Maximum number of plugins.
    pub max_plugins: usize,
    /// Whether a plugin may replace a registered plugin of the same name.
    pub allow_overwrite: bool,
    /// Whether a cleanup also removes stopped plugins.
    pub auto_unload_stopped: bool,
}

impl Default for RegistryConfig {
    /// Room for a hundred plugins, no overwriting, stopped plugins kept.
    fn default() -> (config: RegistryConfig)
        ensures
            config == (RegistryConfig {
                max_plugins: 100,
                allow_overwrite: false,
                auto_unload_stopped: false,
            }),
    {
        RegistryConfig { max_plugins: 100, allow_overwrite: false, auto_unload_stopped: false }
    }
}

impl RegistryConfig {
    /// The default configuration.
    pub fn new() -> (config: RegistryConfig)
        ensures
            config == (RegistryConfig {
                max_plugins: 100,
                allow_overwrite: false,
                auto_unload_stopped: false,
            }),
    {
        RegistryConfig::default()
    }

    /// Sets the maximum number of plugins.
    pub fn with_max_plugins(self, max: usize) -> (config: RegistryConfig)
        ensures
            config == (RegistryConfig { max_plugins: max, ..self }),
    {
        RegistryConfig { max_plugins: max, ..self }
    }

    /// Allows or forbids overwriting.
    pub fn with_allow_overwrite(self, allow: bool) -> (config: RegistryConfig)
        ensures
            config == (RegistryConfig { allow_overwrite: allow, ..self }),
    {
        RegistryConfig { allow_overwrite: allow, ..self }
    }

    /// Lets a cleanup remove stopped plugins, or not.
    pub fn with_auto_unload_stopped(self, auto: bool) -> (config: RegistryConfig)
        ensures
            config == (RegistryConfig { auto_unload_stopped: auto, ..self }),
    {
        RegistryConfig { auto_unload_stopped: auto, ..self }
    }
}

/// Registry statistics.
#[derive(Debug, Clone, Copy, PartialEq, Eq, Structural)]
pub struct RegistryStats {
    /// Number of registered plugins.
    pub total: usize,
    /// Number of running plugins.
    pub running: usize,
    /// Number of stopped plugins.
    pub stopped: usize,
    /// Number of plugins in the error state.
    pub error: usize,
    /// Number of unloaded plugins.
    pub unloaded: usize,
}

impl Default for RegistryStats {
    fn default() -> (stats: RegistryStats)
        ensures
            stats == (RegistryStats { total: 0, running: 0, stopped: 0, error: 0, unloaded: 0 }),
    {
        RegistryStats { total: 0, running: 0, stopped: 0, error: 0, unloaded: 0 }
    }
}

/// The values of a sequence of plugins.
pub open spec fn plugin_views(plugins: Seq<Plugin>) -> Seq<PluginView> {
    plugins.map_values(|p: Plugin| p@)
}

/// The names of a sequence of plugins.
pub open spec fn names_of(plugins: Seq<PluginView>) -> Seq<Seq<char>> {
    plugins.map_values(|p: PluginView| p.manifest.name)
}

/// Whether `entries` is the name index of `plugins`: it has exactly the names
/// of the plugins and gives for each name the position of its plugin.
pub open spec fn indexes(entries: Map<Seq<char>, usize>, plugins: Seq<PluginView>) -> bool {
    &&& forall|i: int|
        0 <= i < plugins.len() ==> entries.contains_key(#[trigger] plugins[i].manifest.name)
            && entries[plugins[i].manifest.name] == i
    &&& forall|name: Seq<char>| #[trigger]
        entries.contains_key(name) ==> entries[name] < plugins.len()
            && plugins[entries[name] as int].manifest.name == name
}

/// The position of the plugin of a name, if there is one.
pub open spec fn position_of(plugins: Seq<PluginView>, name: Seq<char>) -> Option<int> {
    if exists|i: int| 0 <= i < plugins.len() && plugins[i].manifest.name == name {
        Some(choose|i: int| 0 <= i < plugins.len() && plugins[i].manifest.name == name)
    } else {
        None
    }
}

/// Whether no two plugins of the sequence have the same name.
pub open spec fn distinct_names(plugins: Seq<PluginView>) -> bool {
    forall|i: int, j: int|
        0 <= i < plugins.len() && 0 <= j < plugins.len() && i != j
            ==> plugins[i].manifest.name != plugins[j].manifest.name
}

/// Plugin registry.
pub struct PluginRegistry {
    config: RegistryConfig,
    index: dashmap::DashMap<String, usize>,
    slots: Vec<Plugin>,
    hooks: LifecycleHooks,
}

impl PluginRegistry {
    /// The configuration.
    pub closed spec fn spec_config(&self) -> RegistryConfig {
        self.config
    }

    /// The hooks to which the registry reports.
    pub closed spec fn spec_hooks(&self) -> LifecycleHooks {
        self.hooks
    }

    /// The registered plugins, in the order in which the registry enumerates
    /// them.
    pub closed spec fn plugins(&self) -> Seq<PluginView> {
        plugin_views(self.slots@)
    }

    /// Whether the registry is well formed: the name index is the index of
    /// the slots.
    pub closed spec fn wf(&self) -> bool {
        indexes(index_entries(self.index), plugin_views(self.slots@))
    }

    /// Whether a plugin of that name is registered.
    pub open spec fn has(&self, name: Seq<char>) -> bool {
        position_of(self.plugins(), name) is Some
    }

    /// The registered plugin of that name.
    pub open spec fn plugin(&self, name: Seq<char>) -> PluginView {
        self.plugins()[position_of(self.plugins(), name)->Some_0]
    }

    /// In a well-formed registry no two plugins have the same name.
    pub proof fn lemma_distinct_names(&self)
        requires
            self.wf(),
        ensures
            distinct_names(self.plugins()),
    {
        let plugins = self.plugins();
        let entries = index_entries(self.index);
        assert forall|i: int, j: int|
            0 <= i < plugins.len() && 0 <= j < plugins.len() && i != j implies plugins[i].manifest.name
            != plugins[j].manifest.name by {
            assert(entries[plugins[i].manifest.name] == i);
            assert(entries[plugins[j].manifest.name] == j);
        }
    }

    /// A registry without plugins.
    pub fn new(config: RegistryConfig) -> (registry: PluginRegistry)
        ensures
            registry.wf(),
            registry.spec_config() == config,
            registry.plugins() == Seq::<PluginView>::empty(),
    {
        let registry = PluginRegistry {
            config,
            index: index_new(),
            slots: Vec::new(),
            hooks: LifecycleHooks::new(),
        };
        registry
    }

    /// A registry without plugins, with the default configuration.
    pub fn default_config() -> (registry: PluginRegistry)
        ensures
            registry.wf(),
            registry.spec_config() == (RegistryConfig {
                max_plugins: 100,
                allow_overwrite: false,
                auto_unload_stopped: false,
            }),
            registry.plugins() == Seq::<PluginView>::empty(),
    {
        PluginRegistry::new(RegistryConfig::default())
    }

    /// The configuration.
    pub fn config(&self) -> (config: &RegistryConfig)
        ensures
            *config == self.spec_config(),
    {
        &self.config
    }

    /// The number of registered plugins.
    pub fn len(&self) -> (n: usize)
        ensures
            n == self.plugins().len(),
    {
        self.slots.len()
    }

    /// Whether no plugin is registered.
    pub fn is_empty(&self) -> (empty: bool)
        ensures
            empty == (self.plugins().len() == 0),
    {
        self.slots.len() == 0
    }

    /// The position of the plugin of a name, found through the name index.
    fn slot_of(&self, name: &str) -> (slot: Option<usize>)
        requires
            self.wf(),
        ensures
            match slot {
                Some(i) => position_of(self.plugins(), name@) == Some(i as int) && i
                    < self.slots.len() && self.slots@[i as int]@.manifest.name == name@,
                None => position_of(self.plugins(), name@) is None,
            },
    {
        let slot = index_get(&self.index, name);
        proof {
            self.lemma_distinct_names();
            let plugins = self.plugins();
            match slot {
                Some(i) => {
                    assert(plugins[i as int].manifest.name == name@);
                },
                None => {
                    if exists|i: int| 0 <= i < plugins.len() && plugins[i].manifest.name == name@ {
                        let i = choose|i: int|
                            0 <= i < plugins.len() && plugins[i].manifest.name == name@;
                    }
                },
            }
        }
        slot
    }

    /// Whether a plugin of that name is registered.
    pub fn contains(&self, name: &str) -> (present: bool)
        requires
            self.wf(),
        ensures
            present == self.has(name@),
    {
        let present = index_contains(&self.index, name);
        proof {
            let plugins = self.plugins();
            if present {
                assert(plugins[index_entries(self.index)[name@] as int].manifest.name == name@);
            } else if self.has(name@) {
                let i = position_of(plugins, name@)->Some_0;
            }
        }
        present
    }

    /// The registered plugin of that name.
    pub fn get(&self, name: &str) -> (found: Option<&Plugin>)
        requires
            self.wf(),
        ensures
            match found {
                Some(plugin) => self.has(name@) && plugin@ == self.plugin(name@),
                None => !self.has(name@),
            },
    {
        match self.slot_of(name) {
            Some(i) => Some(&self.slots[i]),
            None => None,
        }
    }
}

/// The plugins of a registry after the plugin at position `i` was taken out:
/// the last plugin takes its place.
pub open spec fn without(plugins: Seq<PluginView>, i: int) -> Seq<PluginView> {
    plugins.update(i, plugins.last()).drop_last()
}

impl PluginRegistry {
    /// The error with which the registry refuses a plugin, if it
    /// does: the registry is full, or the name is taken and overwriting is
    /// not allowed. Fullness is tested first.
    pub open spec fn refusal(&self, plugin: PluginView) -> Option<ErrorView> {
        if self.plugins().len() >= self.spec_config().max_plugins {
            Some(ErrorView::Registry("full"@))
        } else if self.has(plugin.manifest.name) && !self.spec_config().allow_overwrite {
            Some(ErrorView::PluginAlreadyLoaded(plugin.manifest.name))
        } else {
            None
        }
    }

    /// The plugins after a plugin was admitted: it takes the place of the
    /// plugin of its name, or comes last where the name is new.
    pub open spec fn admitting(&self, plugin: PluginView) -> Seq<PluginView> {
        match position_of(self.plugins(), plugin.manifest.name) {
            Some(i) => self.plugins().update(i, plugin),
            None => self.plugins().push(plugin),
        }
    }

    /// Registers a plugin under its name.
    ///
    /// A registry that holds its maximum number of plugins refuses. Where a
    /// plugin of that name is registered, the registry refuses unless
    /// overwriting is allowed; then the registered plugin is unloaded and
    /// dropped and the new one takes its place. A refusal leaves the registry
    /// as it is.
    pub fn register(&mut self, plugin: Plugin) -> (registered: Result<(), Error>)
        requires
            old(self).wf(),
        ensures
            final(self).wf(),
            final(self).spec_config() == old(self).spec_config(),
            final(self).spec_hooks() == old(self).spec_hooks(),
            match old(self).refusal(plugin@) {
                Some(e) => registered is Err && registered->Err_0@ == e && final(self).plugins()
                    == old(self).plugins(),
                None => registered is Ok && final(self).plugins() == old(self).admitting(plugin@),
            },
            registered is Ok ==> exists|sent: LifecycleEvent|
                #[trigger] final(self).spec_hooks().delivered(sent) && sent@ is Created
                    && sent@.plugin_name() == plugin@.manifest.name,
            registered is Ok ==> match position_of(old(self).plugins(), plugin@.manifest.name) {
                Some(i) => old(self).plugins()[i].cleaned_up(),
                None => true,
            },
    {
        let name = plugin.name();
        if self.slots.len() >= self.config.max_plugins {
            return Err(Error::Registry(String::from_str("full")));
        }
        let ghost before = self.plugins();
        match self.slot_of(name.as_str()) {
            Some(i) => {
                if !self.config.allow_overwrite {
                    return Err(Error::PluginAlreadyLoaded(name));
                }
                let mut existing = plugin;
                std::mem::swap(&mut self.slots[i], &mut existing);
                let _ = existing.unload();
            },
            None => {
                let slot = self.slots.len();
                let key = name.clone();
                index_insert(&mut self.index, key, slot);
                self.slots.push(plugin);
                assert(plugin_views(self.slots@) =~= before.push(plugin@));
            },
        }
        self.hooks.emit_created(name.as_str());
        assert(self.spec_hooks() == self.hooks);
        Ok(())
    }

    /// Unregisters the plugin of a name: takes it out of the registry,
    /// unloads it and hands it out.
    pub fn unregister(&mut self, name: &str) -> (removed: Result<Plugin, Error>)
        requires
            old(self).wf(),
        ensures
            final(self).wf(),
            final(self).spec_config() == old(self).spec_config(),
            final(self).spec_hooks() == old(self).spec_hooks(),
            match position_of(old(self).plugins(), name@) {
                None => removed is Err && removed->Err_0@ == ErrorView::PluginNotFound(name@)
                    && final(self).plugins() == old(self).plugins(),
                Some(i) => removed is Ok && removed->Ok_0@ == old(self).plugins()[i].unloaded()
                    && old(self).plugins()[i].cleaned_up() && final(self).plugins() == without(
                    old(self).plugins(),
                    i,
                ),
            },
            !final(self).has(name@),
            removed is Ok ==> exists|sent: LifecycleEvent|
                #[trigger] final(self).spec_hooks().delivered(sent) && sent@ is Unloaded
                    && sent@.plugin_name() == name@,
    {
        let ghost before = self.plugins();
        proof {
            self.lemma_distinct_names();
        }
        let i = match self.slot_of(name) {
            Some(i) => i,
            None => {
                return Err(Error::plugin_not_found(name));
            },
        };
        index_remove(&mut self.index, name);
        let mut plugin = self.slots.swap_remove(i);
        if i < self.slots.len() {
            let moved = self.slots[i].name();
            index_insert(&mut self.index, moved, i);
        }
        proof {
            let after = plugin_views(self.slots@);
            let entries = index_entries(self.index);
            let old_entries = index_entries(old(self).index);
            assert forall|k: int| 0 <= k < after.len() implies entries.contains_key(
                #[trigger] after[k].manifest.name,
            ) && entries[after[k].manifest.name] == k by {
                if k == i {
                    assert(after[k] == before.last());
                } else {
                    assert(after[k] == before[k]);
                    assert(old_entries[before[k].manifest.name] == k);
                }
            }
            assert forall|n: Seq<char>| #[trigger] entries.contains_key(n) implies entries[n]
                < after.len() && after[entries[n] as int].manifest.name == n by {
                if !(i < after.len() && n == before.last().manifest.name) {
                    assert(old_entries.contains_key(n));
                    assert(n != name@);
                    let j = old_entries[n] as int;
                    assert(before[j].manifest.name == n);
                    assert(j != i);
                    if j == before.len() - 1 {
                        assert(n == before.last().manifest.name);
                    }
                }
            }
        }
        let _ = plugin.unload();
        self.hooks.emit_unloaded(name);
        assert(self.spec_hooks() == self.hooks);
        Ok(plugin)
    }

    /// The names of the registered plugins, in the order of enumeration.
    pub fn names(&self) -> (names: Vec<String>)
        ensures
            texts(names@) == names_of(self.plugins()),
    {
        let mut names: Vec<String> = Vec::new();
        let mut i: usize = 0;
        while i < self.slots.len()
            invariant
                i <= self.slots.len(),
                texts(names@) == names_of(self.plugins()).take(i as int),
            decreases self.slots.len() - i,
        {
            let name = self.slots[i].name();
            names.push(name);
            assert(names_of(self.plugins()).take(i + 1) =~= names_of(self.plugins()).take(
                i as int,
            ).push(self.plugins()[i as int].manifest.name));
            i += 1;
        }
        names
    }
}

/// The values of a sequence of borrowed plugins.
pub open spec fn borrowed_views(plugins: Seq<&Plugin>) -> Seq<PluginView> {
    plugins.map_values(|p: &Plugin| p@)
}

/// The values of a sequence of plugin informations.
pub open spec fn info_views(infos: Seq<PluginInfo>) -> Seq<PluginInfoView> {
    infos.map_values(|info: PluginInfo| info@)
}

/// The test for a lifecycle state.
pub open spec fn is_in(state: LifecycleState) -> spec_fn(PluginView) -> bool {
    |p: PluginView| p.state() == state
}

/// The test for a tag.
pub open spec fn has_tag(tag: Seq<char>) -> spec_fn(PluginView) -> bool {
    |p: PluginView| p.manifest.tags.contains(tag)
}

/// The test for a declared capability.
pub open spec fn needs(cap: Seq<char>) -> spec_fn(PluginView) -> bool {
    |p: PluginView| p.manifest.requires_capability(cap)
}

/// The number of plugins among the first `i` that pass a test.
pub open spec fn rank(plugins: Seq<PluginView>, test: spec_fn(PluginView) -> bool, i: int) -> nat {
    plugins.take(i).filter(test).len()
}

/// The number of plugins among the first `i` that are in a state.
pub open spec fn count_before(plugins: Seq<PluginView>, state: LifecycleState, i: int) -> nat {
    rank(plugins, is_in(state), i)
}

/// The number of plugins that are in a state.
pub open spec fn count_in(plugins: Seq<PluginView>, state: LifecycleState) -> nat {
    plugins.filter(is_in(state)).len()
}

/// The rank over one more plugin is the rank so far, and one more where that
/// plugin passes the test.
pub proof fn lemma_rank_step(plugins: Seq<PluginView>, test: spec_fn(PluginView) -> bool, i: int)
    requires
        0 <= i < plugins.len(),
    ensures
        rank(plugins, test, i + 1) == rank(plugins, test, i) + if test(plugins[i]) {
            1nat
        } else {
            0nat
        },
        rank(plugins, test, i) <= i,
        plugins.take(i + 1).filter(test) == if test(plugins[i]) {
            plugins.take(i).filter(test).push(plugins[i])
        } else {
            plugins.take(i).filter(test)
        },
    decreases i,
{
    assert(plugins.take(i + 1) =~= plugins.take(i).push(plugins[i]));
    lemma_filter_push(plugins.take(i), plugins[i], test);
    if i > 0 {
        lemma_rank_step(plugins, test, i - 1);
    } else {
        assert(plugins.take(0).filter(test) =~= Seq::<PluginView>::empty()) by {
            reveal(Seq::filter);
        }
    }
}

/// The rank grows with the number of plugins counted.
pub proof fn lemma_rank_monotonic(
    plugins: Seq<PluginView>,
    test: spec_fn(PluginView) -> bool,
    i: int,
    j: int,
)
    requires
        0 <= i <= j <= plugins.len(),
    ensures
        rank(plugins, test, i) <= rank(plugins, test, j),
    decreases j - i,
{
    if i < j {
        lemma_rank_step(plugins, test, j - 1);
        lemma_rank_monotonic(plugins, test, i, j - 1);
    }
}

/// The count over one more plugin is the count so far, and one more where
/// that plugin is in the state.
pub proof fn lemma_count_step(plugins: Seq<PluginView>, state: LifecycleState, i: int)
    requires
        0 <= i < plugins.len(),
    ensures
        count_before(plugins, state, i + 1) == count_before(plugins, state, i) + if plugins[i].state()
            == state {
            1nat
        } else {
            0nat
        },
        count_before(plugins, state, i) <= i,
        plugins.take(i + 1).filter(is_in(state)) == if plugins[i].state() == state {
            plugins.take(i).filter(is_in(state)).push(plugins[i])
        } else {
            plugins.take(i).filter(is_in(state))
        },
{
    lemma_rank_step(plugins, is_in(state), i);
}

impl PluginRegistry {
    /// The registered plugins, in the order of enumeration.
    pub fn all(&self) -> (all: Vec<&Plugin>)
        ensures
            borrowed_views(all@) == self.plugins(),
    {
        let mut all: Vec<&Plugin> = Vec::new();
        let mut i: usize = 0;
        while i < self.slots.len()
            invariant
                i <= self.slots.len(),
                borrowed_views(all@) == self.plugins().take(i as int),
            decreases self.slots.len() - i,
        {
            all.push(&self.slots[i]);
            assert(self.plugins().take(i + 1) =~= self.plugins().take(i as int).push(
                self.plugins()[i as int],
            ));
            i += 1;
        }
        all
    }

    /// The registered plugins that are in a state, in the order of
    /// enumeration.
    pub fn by_state(&self, state: LifecycleState) -> (found: Vec<&Plugin>)
        ensures
            borrowed_views(found@) == self.plugins().filter(is_in(state)),
    {
        let mut found: Vec<&Plugin> = Vec::new();
        let mut i: usize = 0;
        while i < self.slots.len()
            invariant
                i <= self.slots.len(),
                borrowed_views(found@) == self.plugins().take(i as int).filter(is_in(state)),
            decreases self.slots.len() - i,
        {
            proof {
                lemma_count_step(self.plugins(), state, i as int);
            }
            if self.slots[i].state() == state {
                found.push(&self.slots[i]);
            }
            i += 1;
        }
        assert(self.plugins().take(i as int) =~= self.plugins());
        found
    }

    /// The running plugins, in the order of enumeration.
    pub fn running(&self) -> (found: Vec<&Plugin>)
        ensures
            borrowed_views(found@) == self.plugins().filter(is_in(LifecycleState::Running)),
    {
        self.by_state(LifecycleState::Running)
    }

    /// The statistics of the registry: the number of plugins, and of those
    /// the numbers that are running, stopped, in the error state and
    /// unloaded.
    pub fn stats(&self) -> (stats: RegistryStats)
        ensures
            stats.total == self.plugins().len(),
            stats.running == count_in(self.plugins(), LifecycleState::Running),
            stats.stopped == count_in(self.plugins(), LifecycleState::Stopped),
            stats.error == count_in(self.plugins(), LifecycleState::Error),
            stats.unloaded == count_in(self.plugins(), LifecycleState::Unloaded),
    {
        let mut stats = RegistryStats::default();
        stats.total = self.slots.len();
        let ghost plugins = self.plugins();
        proof {
            reveal(Seq::filter);
        }
        let mut i: usize = 0;
        while i < self.slots.len()
            invariant
                i <= self.slots.len(),
                plugins == self.plugins(),
                stats.total == plugins.len(),
                stats.running == count_before(plugins, LifecycleState::Running, i as int),
                stats.stopped == count_before(plugins, LifecycleState::Stopped, i as int),
                stats.error == count_before(plugins, LifecycleState::Error, i as int),
                stats.unloaded == count_before(plugins, LifecycleState::Unloaded, i as int),
            decreases self.slots.len() - i,
        {
            proof {
                lemma_count_step(plugins, LifecycleState::Running, i as int);
                lemma_count_step(plugins, LifecycleState::Stopped, i as int);
                lemma_count_step(plugins, LifecycleState::Error, i as int);
                lemma_count_step(plugins, LifecycleState::Unloaded, i as int);
            }
            match self.slots[i].state() {
                LifecycleState::Running => {
                    stats.running = stats.running + 1;
                },
                LifecycleState::Stopped => {
                    stats.stopped = stats.stopped + 1;
                },
                LifecycleState::Error => {
                    stats.error = stats.error + 1;
                },
                LifecycleState::Unloaded => {
                    stats.unloaded = stats.unloaded + 1;
                },
                _ => {},
            }
            i += 1;
        }
        assert(plugins.take(i as int) =~= plugins);
        stats
    }

    /// The information of every registered plugin, in the order of
    /// enumeration.
    pub fn info(&self) -> (infos: Vec<PluginInfo>)
        ensures
            info_views(infos@) == self.plugins().map_values(|p: PluginView| p.info),
    {
        let ghost wanted = self.plugins().map_values(|p: PluginView| p.info);
        let mut infos: Vec<PluginInfo> = Vec::new();
        let mut i: usize = 0;
        while i < self.slots.len()
            invariant
                i <= self.slots.len(),
                wanted == self.plugins().map_values(|p: PluginView| p.info),
                info_views(infos@) == wanted.take(i as int),
            decreases self.slots.len() - i,
        {
            let info = self.slots[i].info();
            infos.push(info);
            assert(wanted.take(i + 1) =~= wanted.take(i as int).push(wanted[i as int]));
            i += 1;
        }
        infos
    }

    /// The registered plugins whose manifest has a tag, in the order of
    /// enumeration.
    pub fn find_by_tag(&self, tag: &str) -> (found: Vec<&Plugin>)
        ensures
            borrowed_views(found@) == self.plugins().filter(has_tag(tag@)),
    {
        let mut found: Vec<&Plugin> = Vec::new();
        let ghost plugins = self.plugins();
        proof {
            reveal(Seq::filter);
        }
        let mut i: usize = 0;
        while i < self.slots.len()
            invariant
                i <= self.slots.len(),
                plugins == self.plugins(),
                borrowed_views(found@) == plugins.take(i as int).filter(has_tag(tag@)),
            decreases self.slots.len() - i,
        {
            proof {
                assert(plugins.take(i + 1) =~= plugins.take(i as int).push(plugins[i as int]));
                lemma_filter_push(plugins.take(i as int), plugins[i as int], has_tag(tag@));
            }
            if self.slots[i].has_tag(tag) {
                found.push(&self.slots[i]);
            }
            i += 1;
        }
        assert(plugins.take(i as int) =~= plugins);
        found
    }

    /// The registered plugins that declare a capability, in the order of
    /// enumeration.
    pub fn find_by_capability(&self, cap: &str) -> (found: Vec<&Plugin>)
        ensures
            borrowed_views(found@) == self.plugins().filter(needs(cap@)),
    {
        let mut found: Vec<&Plugin> = Vec::new();
        let ghost plugins = self.plugins();
        proof {
            reveal(Seq::filter);
        }
        let mut i: usize = 0;
        while i < self.slots.len()
            invariant
                i <= self.slots.len(),
                plugins == self.plugins(),
                borrowed_views(found@) == plugins.take(i as int).filter(needs(cap@)),
            decreases self.slots.len() - i,
        {
            proof {
                assert(plugins.take(i + 1) =~= plugins.take(i as int).push(plugins[i as int]));
                lemma_filter_push(plugins.take(i as int), plugins[i as int], needs(cap@));
            }
            if self.slots[i].requires_capability(cap) {
                found.push(&self.slots[i]);
            }
            i += 1;
        }
        assert(plugins.take(i as int) =~= plugins);
        found
    }
}

/// The outcomes of a sequence of operations with the errors taken by their
/// values.
pub open spec fn outcome_views(results: Seq<Result<(), Error>>) -> Seq<Result<(), ErrorView>> {
    results.map_values(|r: Result<(), Error>| outcome_view(r))
}

/// Whether starting every initialized plugin takes the plugins `before` to
/// `after` with `results`: a plugin that is not `Initialized` stays as it is;
/// each that is was started, and its result stands in `results` at the number
/// of initialized plugins before it.
pub open spec fn started_all(
    before: Seq<PluginView>,
    after: Seq<PluginView>,
    results: Seq<Result<(), ErrorView>>,
) -> bool {
    &&& after.len() == before.len()
    &&& results.len() == count_in(before, LifecycleState::Initialized)
    &&& forall|i: int|
        0 <= i < before.len() ==> if (#[trigger] before[i]).state() == LifecycleState::Initialized {
            before[i].started(
                after[i],
                results[count_before(before, LifecycleState::Initialized, i) as int],
            )
        } else {
            after[i] == before[i]
        }
}

/// Whether stopping every running plugin takes the plugins `before` to
/// `after` with `results`: a plugin that is not `Running` stays as it is;
/// each that is was stopped, and its result stands in `results` at the number
/// of running plugins before it.
pub open spec fn stopped_all(
    before: Seq<PluginView>,
    after: Seq<PluginView>,
    results: Seq<Result<(), ErrorView>>,
) -> bool {
    &&& after.len() == before.len()
    &&& results.len() == count_in(before, LifecycleState::Running)
    &&& forall|i: int|
        0 <= i < before.len() ==> if (#[trigger] before[i]).state() == LifecycleState::Running {
            before[i].stopped(
                after[i],
                results[count_before(before, LifecycleState::Running, i) as int],
            )
        } else {
            after[i] == before[i]
        }
}

/// Whether reloading every plugin takes the plugins `before` to `after` with
/// `results`: each plugin was reloaded, and its result stands in `results` at
/// its own position.
pub open spec fn reloaded_all(
    before: Seq<PluginView>,
    after: Seq<PluginView>,
    results: Seq<Result<(), ErrorView>>,
) -> bool {
    &&& after.len() == before.len()
    &&& results.len() == before.len()
    &&& forall|i: int|
        0 <= i < before.len() ==> (#[trigger] before[i]).reloaded(after[i], results[i])
}

/// Whether the hooks were told of a reload of the plugin: every handler took
/// a reloaded event with the plugin's name and its count of reloads.
pub open spec fn reload_reported(hooks: LifecycleHooks, plugin: PluginView) -> bool {
    exists|sent: LifecycleEvent|
        #[trigger] hooks.delivered(sent) && sent@ is Reloaded && sent@.plugin_name()
            == plugin.info.name && sent@->count == plugin.info.reload_count
}

/// Whether every plugin has room for one more counted reload.
pub open spec fn reloads_countable(plugins: Seq<PluginView>) -> bool {
    forall|i: int| 0 <= i < plugins.len() ==> (#[trigger] plugins[i]).info.reload_count < u64::MAX
}

/// A name index depends on the names of the plugins alone.
proof fn lemma_index_by_names(
    entries: Map<Seq<char>, usize>,
    before: Seq<PluginView>,
    after: Seq<PluginView>,
)
    requires
        indexes(entries, before),
        after.len() == before.len(),
        forall|i: int|
            0 <= i < before.len() ==> (#[trigger] after[i]).manifest.name
                == before[i].manifest.name,
    ensures
        indexes(entries, after),
{
    assert forall|i: int| 0 <= i < after.len() implies entries.contains_key(
        #[trigger] after[i].manifest.name,
    ) && entries[after[i].manifest.name] == i by {
        assert(entries.contains_key(before[i].manifest.name));
    }
}

impl PluginRegistry {
    /// Starts every initialized plugin, in the order of enumeration, and
    /// gives the result of each. A failure does not end the pass.
    pub fn start_all(&mut self) -> (results: Vec<Result<(), Error>>)
        requires
            old(self).wf(),
        ensures
            final(self).wf(),
            final(self).spec_config() == old(self).spec_config(),
            final(self).spec_hooks() == old(self).spec_hooks(),
            started_all(old(self).plugins(), final(self).plugins(), outcome_views(results@)),
    {
        let ghost before = self.plugins();
        let ghost state = LifecycleState::Initialized;
        let mut results: Vec<Result<(), Error>> = Vec::new();
        let mut i: usize = 0;
        proof {
            reveal(Seq::filter);
        }
        while i < self.slots.len()
            invariant
                i <= self.slots.len(),
                state == LifecycleState::Initialized,
                before == old(self).plugins(),
                self.slots.len() == before.len(),
                self.index == old(self).index,
                self.config == old(self).config,
                self.hooks == old(self).hooks,
                results.len() == count_before(before, state, i as int),
                forall|k: int|
                    0 <= k < i ==> if (#[trigger] before[k]).state() == state {
                        before[k].started(
                            self.plugins()[k],
                            outcome_views(results@)[count_before(before, state, k) as int],
                        )
                    } else {
                        self.plugins()[k] == before[k]
                    },
                forall|k: int| i <= k < before.len() ==> self.plugins()[k] == #[trigger] before[k],
            decreases self.slots.len() - i,
        {
            proof {
                lemma_count_step(before, state, i as int);
            }
            if self.slots[i].state() == LifecycleState::Initialized {
                let result = self.slots[i].start();
                results.push(result);
                proof {
                    let now = self.plugins();
                    assert forall|k: int| 0 <= k < i implies if (#[trigger] before[k]).state()
                        == state {
                        before[k].started(
                            now[k],
                            outcome_views(results@)[count_before(before, state, k) as int],
                        )
                    } else {
                        now[k] == before[k]
                    } by {
                        lemma_count_step(before, state, k);
                        lemma_count_monotonic(before, state, k + 1, i as int);
                    }
                }
            }
            i += 1;
        }
        proof {
            assert(before.take(i as int) =~= before);
            lemma_index_by_names(index_entries(self.index), before, self.plugins());
        }
        results
    }
}

/// The count of plugins in a state grows with the number of plugins counted.
pub proof fn lemma_count_monotonic(plugins: Seq<PluginView>, state: LifecycleState, i: int, j: int)
    requires
        0 <= i <= j <= plugins.len(),
    ensures
        count_before(plugins, state, i) <= count_before(plugins, state, j),
{
    lemma_rank_monotonic(plugins, is_in(state), i, j);
}

/// The test that a cleanup applies: whether a plugin stays. Unloaded plugins
/// go, and stopped plugins too where `drop_stopped` is set.
pub open spec fn survives(drop_stopped: bool) -> spec_fn(PluginView) -> bool {
    |p: PluginView|
        !(p.state() == LifecycleState::Unloaded || (drop_stopped && p.state()
            == LifecycleState::Stopped))
}

impl PluginRegistry {
    /// Stops every running plugin, in the order of enumeration, and gives
    /// the result of each. A failure does not end the pass.
    pub fn stop_all(&mut self) -> (results: Vec<Result<(), Error>>)
        requires
            old(self).wf(),
        ensures
            final(self).wf(),
            final(self).spec_config() == old(self).spec_config(),
            final(self).spec_hooks() == old(self).spec_hooks(),
            stopped_all(old(self).plugins(), final(self).plugins(), outcome_views(results@)),
    {
        let ghost before = self.plugins();
        let ghost state = LifecycleState::Running;
        let mut results: Vec<Result<(), Error>> = Vec::new();
        let mut i: usize = 0;
        proof {
            reveal(Seq::filter);
        }
        while i < self.slots.len()
            invariant
                i <= self.slots.len(),
                state == LifecycleState::Running,
                before == old(self).plugins(),
                self.slots.len() == before.len(),
                self.index == old(self).index,
                self.config == old(self).config,
                self.hooks == old(self).hooks,
                results.len() == count_before(before, state, i as int),
                forall|k: int|
                    0 <= k < i ==> if (#[trigger] before[k]).state() == state {
                        before[k].stopped(
                            self.plugins()[k],
                            outcome_views(results@)[count_before(before, state, k) as int],
                        )
                    } else {
                        self.plugins()[k] == before[k]
                    },
                forall|k: int| i <= k < before.len() ==> self.plugins()[k] == #[trigger] before[k],
            decreases self.slots.len() - i,
        {
            proof {
                lemma_count_step(before, state, i as int);
            }
            if self.slots[i].state() == LifecycleState::Running {
                let result = self.slots[i].stop();
                results.push(result);
                proof {
                    let now = self.plugins();
                    assert forall|k: int| 0 <= k < i implies if (#[trigger] before[k]).state()
                        == state {
                        before[k].stopped(
                            now[k],
                            outcome_views(results@)[count_before(before, state, k) as int],
                        )
                    } else {
                        now[k] == before[k]
                    } by {
                        lemma_count_step(before, state, k);
                        lemma_count_monotonic(before, state, k + 1, i as int);
                    }
                }
            }
            i += 1;
        }
        proof {
            assert(before.take(i as int) =~= before);
            lemma_index_by_names(index_entries(self.index), before, self.plugins());
        }
        results
    }

    /// Reloads the plugin of a name and reports the reload to the hooks.
    pub fn reload(&mut self, name: &str) -> (reloaded: Result<(), Error>)
        requires
            old(self).wf(),
            reloads_countable(old(self).plugins()),
        ensures
            final(self).wf(),
            final(self).spec_config() == old(self).spec_config(),
            final(self).spec_hooks() == old(self).spec_hooks(),
            match position_of(old(self).plugins(), name@) {
                None => reloaded is Err && reloaded->Err_0@ == ErrorView::PluginNotFound(name@)
                    && final(self).plugins() == old(self).plugins(),
                Some(i) => old(self).plugins()[i].reloaded(
                    final(self).plugins()[i],
                    outcome_view(reloaded),
                ) && final(self).plugins() == old(self).plugins().update(
                    i,
                    final(self).plugins()[i],
                ) && (reloaded is Ok ==> exists|sent: LifecycleEvent|
                    #[trigger] final(self).spec_hooks().delivered(sent) && sent@ is Reloaded
                        && sent@.plugin_name() == name@ && sent@->count == final(
                        self
                    ).plugins()[i].info.reload_count),
            },
    {
        let ghost before = self.plugins();
        let i = match self.slot_of(name) {
            Some(i) => i,
            None => {
                return Err(Error::plugin_not_found(name));
            },
        };
        let result = self.slots[i].reload();
        proof {
            lemma_index_by_names(index_entries(self.index), before, self.plugins());
        }
        match result {
            Ok(()) => {
                let count = self.slots[i].info().reload_count;
                self.hooks.emit_reloaded(name, count);
                assert(self.spec_hooks() == self.hooks);
                Ok(())
            },
            Err(e) => Err(e),
        }
    }

    /// Reloads every plugin, in the order of enumeration, and gives the
    /// result of each. A failure does not end the pass. Each reload that
    /// succeeds is reported to the hooks.
    pub fn reload_all(&mut self) -> (results: Vec<Result<(), Error>>)
        requires
            old(self).wf(),
            reloads_countable(old(self).plugins()),
        ensures
            final(self).wf(),
            final(self).spec_config() == old(self).spec_config(),
            final(self).spec_hooks() == old(self).spec_hooks(),
            reloaded_all(old(self).plugins(), final(self).plugins(), outcome_views(results@)),
            forall|k: int|
                0 <= k < results@.len() && (#[trigger] results@[k]) is Ok ==> reload_reported(
                    final(self).spec_hooks(),
                    final(self).plugins()[k],
                ),
    {
        let ghost before = self.plugins();
        let mut results: Vec<Result<(), Error>> = Vec::new();
        let mut i: usize = 0;
        while i < self.slots.len()
            invariant
                i <= self.slots.len(),
                before == old(self).plugins(),
                reloads_countable(before),
                self.slots.len() == before.len(),
                self.index == old(self).index,
                self.config == old(self).config,
                self.hooks == old(self).hooks,
                results.len() == i,
                forall|k: int|
                    0 <= k < i ==> (#[trigger] before[k]).reloaded(
                        self.plugins()[k],
                        outcome_views(results@)[k],
                    ),
                forall|k: int| i <= k < before.len() ==> self.plugins()[k] == #[trigger] before[k],
                forall|k: int|
                    0 <= k < i && (#[trigger] results@[k]) is Ok ==> reload_reported(
                        self.hooks,
                        self.plugins()[k],
                    ),
            decreases self.slots.len() - i,
        {
            assert(before[i as int].info.reload_count < u64::MAX);
            let ghost reloaded = self.plugins();
            let result = match self.slots[i].reload() {
                Ok(()) => {
                    let info = self.slots[i].info();
                    self.hooks.emit_reloaded(info.name.as_str(), info.reload_count);
                    assert(reload_reported(self.hooks, self.plugins()[i as int]));
                    Ok(())
                },
                Err(e) => Err(e),
            };
            let ghost told = results@;
            results.push(result);
            proof {
                assert forall|k: int| 0 <= k < i + 1 && (#[trigger] results@[k]) is Ok implies
                    reload_reported(self.hooks, self.plugins()[k]) by {
                    if k < i {
                        assert(results@[k] == told[k]);
                        assert(self.plugins()[k] == reloaded[k]);
                    }
                }
            }
            i += 1;
        }
        proof {
            lemma_index_by_names(index_entries(self.index), before, self.plugins());
        }
        results
    }

    /// Starts the plugin of a name.
    pub fn start(&mut self, name: &str) -> (started: Result<(), Error>)
        requires
            old(self).wf(),
        ensures
            final(self).wf(),
            final(self).spec_config() == old(self).spec_config(),
            final(self).spec_hooks() == old(self).spec_hooks(),
            match position_of(old(self).plugins(), name@) {
                None => started is Err && started->Err_0@ == ErrorView::PluginNotFound(name@)
                    && final(self).plugins() == old(self).plugins(),
                Some(i) => old(self).plugins()[i].started(
                    final(self).plugins()[i],
                    outcome_view(started),
                ) && final(self).plugins() == old(self).plugins().update(
                    i,
                    final(self).plugins()[i],
                ),
            },
    {
        let ghost before = self.plugins();
        let i = match self.slot_of(name) {
            Some(i) => i,
            None => {
                return Err(Error::plugin_not_found(name));
            },
        };
        let result = self.slots[i].start();
        proof {
            lemma_index_by_names(index_entries(self.index), before, self.plugins());
        }
        result
    }

    /// Stops the plugin of a name.
    pub fn stop(&mut self, name: &str) -> (stopped: Result<(), Error>)
        requires
            old(self).wf(),
        ensures
            final(self).wf(),
            final(self).spec_config() == old(self).spec_config(),
            final(self).spec_hooks() == old(self).spec_hooks(),
            match position_of(old(self).plugins(), name@) {
                None => stopped is Err && stopped->Err_0@ == ErrorView::PluginNotFound(name@)
                    && final(self).plugins() == old(self).plugins(),
                Some(i) => old(self).plugins()[i].stopped(
                    final(self).plugins()[i],
                    outcome_view(stopped),
                ) && final(self).plugins() == old(self).plugins().update(
                    i,
                    final(self).plugins()[i],
                ),
            },
    {
        let ghost before = self.plugins();
        let i = match self.slot_of(name) {
            Some(i) => i,
            None => {
                return Err(Error::plugin_not_found(name));
            },
        };
        let result = self.slots[i].stop();
        proof {
            lemma_index_by_names(index_entries(self.index), before, self.plugins());
        }
        result
    }

    /// Calls a function of the plugin of a name.
    pub fn call(&mut self, name: &str, function: &str, args: &[fusabi_host::Value]) -> (returned:
        Result<fusabi_host::Value, Error>)
        requires
            old(self).wf(),
            old(self).has(name@) ==> old(self).plugin(name@).info.invocation_count < u64::MAX,
        ensures
            final(self).wf(),
            final(self).spec_config() == old(self).spec_config(),
            final(self).spec_hooks() == old(self).spec_hooks(),
            match position_of(old(self).plugins(), name@) {
                None => returned is Err && returned->Err_0@ == ErrorView::PluginNotFound(name@)
                    && final(self).plugins() == old(self).plugins(),
                Some(i) => old(self).plugins()[i].called(
                    final(self).plugins()[i],
                    function@,
                    args@.len(),
                    outcome_view(returned),
                ) && final(self).plugins() == old(self).plugins().update(
                    i,
                    final(self).plugins()[i],
                ),
            },
    {
        let ghost before = self.plugins();
        let i = match self.slot_of(name) {
            Some(i) => i,
            None => {
                return Err(Error::plugin_not_found(name));
            },
        };
        let result = self.slots[i].call(function, args);
        proof {
            lemma_index_by_names(index_entries(self.index), before, self.plugins());
        }
        result
    }

    /// Unloads every plugin, each with the clean-up that an unload makes, and
    /// empties the registry.
    pub fn unload_all(&mut self)
        requires
            old(self).wf(),
        ensures
            final(self).wf(),
            final(self).spec_config() == old(self).spec_config(),
            final(self).spec_hooks() == old(self).spec_hooks(),
            final(self).plugins() == Seq::<PluginView>::empty(),
            forall|k: int|
                0 <= k < old(self).plugins().len() ==> (#[trigger] old(self).plugins()[k])
                    .cleaned_up(),
    {
        let ghost before = self.plugins();
        let mut i: usize = 0;
        while i < self.slots.len()
            invariant
                i <= self.slots.len(),
                self.config == old(self).config,
                self.hooks == old(self).hooks,
                self.slots.len() == before.len(),
                forall|k: int| 0 <= k < i ==> (#[trigger] before[k]).cleaned_up(),
                forall|k: int| i <= k < before.len() ==> self.plugins()[k] == #[trigger] before[k],
            decreases self.slots.len() - i,
        {
            let _ = self.slots[i].unload();
            i += 1;
        }
        self.slots.clear();
        index_clear(&mut self.index);
    }
}

impl PluginRegistry {
    /// Removes the plugins that are unloaded, and the stopped ones too where
    /// the configuration says so. The plugins that stay keep their order.
    /// Gives the number of plugins removed.
    pub fn cleanup(&mut self) -> (removed: usize)
        requires
            old(self).wf(),
        ensures
            final(self).wf(),
            final(self).spec_config() == old(self).spec_config(),
            final(self).spec_hooks() == old(self).spec_hooks(),
            final(self).plugins() == old(self).plugins().filter(
                survives(old(self).spec_config().auto_unload_stopped),
            ),
            removed == old(self).plugins().len() - final(self).plugins().len(),
    {
        let ghost before = self.plugins();
        let ghost keep = survives(self.config.auto_unload_stopped);
        let drop_stopped = self.config.auto_unload_stopped;
        proof {
            self.lemma_distinct_names();
            reveal(Seq::filter);
        }
        let mut emptied: Vec<Plugin> = Vec::new();
        std::mem::swap(&mut self.slots, &mut emptied);
        index_clear(&mut self.index);
        let total = emptied.len();
        let mut removed: usize = 0;
        let mut i: usize = 0;
        for plugin in it: emptied
            invariant
                i == it.index(),
                it.seq().len() == total,
                plugin_views(it.seq()) == before,
                distinct_names(before),
                keep == survives(drop_stopped),
                self.config == old(self).config,
                self.hooks == old(self).hooks,
                plugin_views(self.slots@) == before.take(i as int).filter(keep),
                indexes(index_entries(self.index), plugin_views(self.slots@)),
                forall|k: int|
                    0 <= k < self.slots.len() ==> exists|j: int|
                        0 <= j < i && before[j] == #[trigger] plugin_views(self.slots@)[k],
                removed + self.slots.len() == i,
        {
            let ghost kept = plugin_views(self.slots@);
            proof {
                assert(before.take(i + 1) =~= before.take(i as int).push(before[i as int]));
                lemma_filter_push(before.take(i as int), before[i as int], keep);
            }
            let state = plugin.state();
            let goes = matches!(state, LifecycleState::Unloaded) || (drop_stopped && matches!(
                state,
                LifecycleState::Stopped
            ));
            if goes {
                removed = removed + 1;
            } else {
                let slot = self.slots.len();
                index_insert(&mut self.index, plugin.name(), slot);
                self.slots.push(plugin);
                proof {
                    let now = plugin_views(self.slots@);
                    let name = before[i as int].manifest.name;
                    assert(now =~= kept.push(before[i as int]));
                }
            }
            i = i + 1;
        }
        assert(before.take(i as int) =~= before);
        removed
    }
}

/// The test for a running plugin that publishes a function.
pub open spec fn answers(function: Seq<char>) -> spec_fn(PluginView) -> bool {
    |p: PluginView| p.state() == LifecycleState::Running && p.manifest.exports_function(function)
}

/// Whether every plugin has room for one more counted invocation.
pub open spec fn calls_countable(plugins: Seq<PluginView>) -> bool {
    forall|i: int|
        0 <= i < plugins.len() ==> (#[trigger] plugins[i]).info.invocation_count < u64::MAX
}

/// The answers to a broadcast with the errors taken by their values.
pub open spec fn answer_views(answers: Seq<(String, Result<fusabi_host::Value, Error>)>) -> Seq<
    (Seq<char>, Result<fusabi_host::Value, ErrorView>),
> {
    answers.map_values(
        |a: (String, Result<fusabi_host::Value, Error>)| (a.0@, outcome_view(a.1)),
    )
}

/// Whether a broadcast of `function` on `arity` arguments takes the plugins
/// `before` to `after` with `results`: a plugin that does not run or does
/// not publish the function stays as it is; each other one was called, and
/// its name and result stand in `results` at the number of such plugins
/// before it.
pub open spec fn broadcast_to(
    before: Seq<PluginView>,
    after: Seq<PluginView>,
    function: Seq<char>,
    arity: nat,
    results: Seq<(Seq<char>, Result<fusabi_host::Value, ErrorView>)>,
) -> bool {
    &&& after.len() == before.len()
    &&& results.len() == before.filter(answers(function)).len()
    &&& forall|i: int|
        0 <= i < before.len() ==> if answers(function)(#[trigger] before[i]) {
            results[rank(before, answers(function), i) as int].0 == before[i].manifest.name
                && before[i].called(
                after[i],
                function,
                arity,
                results[rank(before, answers(function), i) as int].1,
            )
        } else {
            after[i] == before[i]
        }
}

impl PluginRegistry {
    /// Calls a function on every running plugin that publishes it, in the
    /// order of enumeration, and gives the name and the result of each. A
    /// failure does not end the pass.
    pub fn broadcast(&mut self, function: &str, args: &[fusabi_host::Value]) -> (results: Vec<
        (String, Result<fusabi_host::Value, Error>),
    >)
        requires
            old(self).wf(),
            calls_countable(old(self).plugins()),
        ensures
            final(self).wf(),
            final(self).spec_config() == old(self).spec_config(),
            final(self).spec_hooks() == old(self).spec_hooks(),
            broadcast_to(
                old(self).plugins(),
                final(self).plugins(),
                function@,
                args@.len(),
                answer_views(results@),
            ),
    {
        let ghost before = self.plugins();
        let ghost test = answers(function@);
        let mut results: Vec<(String, Result<fusabi_host::Value, Error>)> = Vec::new();
        let mut i: usize = 0;
        proof {
            reveal(Seq::filter);
        }
        while i < self.slots.len()
            invariant
                i <= self.slots.len(),
                test == answers(function@),
                before == old(self).plugins(),
                calls_countable(before),
                self.slots.len() == before.len(),
                self.index == old(self).index,
                self.config == old(self).config,
                self.hooks == old(self).hooks,
                results.len() == rank(before, test, i as int),
                forall|k: int|
                    0 <= k < i ==> if test(#[trigger] before[k]) {
                        answer_views(results@)[rank(before, test, k) as int].0
                            == before[k].manifest.name && before[k].called(
                            self.plugins()[k],
                            function@,
                            args@.len(),
                            answer_views(results@)[rank(before, test, k) as int].1,
                        )
                    } else {
                        self.plugins()[k] == before[k]
                    },
                forall|k: int| i <= k < before.len() ==> self.plugins()[k] == #[trigger] before[k],
            decreases self.slots.len() - i,
        {
            proof {
                lemma_rank_step(before, test, i as int);
            }
            if self.slots[i].state() == LifecycleState::Running && self.slots[i].has_export(
                function,
            ) {
                let name = self.slots[i].name();
                let result = self.slots[i].call(function, args);
                results.push((name, result));
                proof {
                    let now = self.plugins();
                    assert forall|k: int| 0 <= k < i implies if test(#[trigger] before[k]) {
                        answer_views(results@)[rank(before, test, k) as int].0
                            == before[k].manifest.name && before[k].called(
                            now[k],
                            function@,
                            args@.len(),
                            answer_views(results@)[rank(before, test, k) as int].1,
                        )
                    } else {
                        now[k] == before[k]
                    } by {
                        lemma_rank_step(before, test, k);
                        lemma_rank_monotonic(before, test, k + 1, i as int);
                    }
                }
            }
            i += 1;
        }
        proof {
            assert(before.take(i as int) =~= before);
            lemma_index_by_names(index_entries(self.index), before, self.plugins());
        }
        results
    }
}

/// Lookup law: a plugin that was registered is found under its name, and
/// what is found is that plugin.
pub proof fn lemma_registered_is_found(
    before: PluginRegistry,
    after: PluginRegistry,
    plugin: PluginView,
)
    requires
        before.wf(),
        before.refusal(plugin) is None,
        after.plugins() == before.admitting(plugin),
    ensures
        after.has(plugin.manifest.name),
        after.plugin(plugin.manifest.name) == plugin,
{
    before.lemma_distinct_names();
    let name = plugin.manifest.name;
    let old_plugins = before.plugins();
    let new_plugins = after.plugins();
    match position_of(old_plugins, name) {
        Some(i) => {
            assert(new_plugins[i].manifest.name == name);
        },
        None => {
            assert(new_plugins[old_plugins.len() as int].manifest.name == name);
        },
    }
    let j = position_of(new_plugins, name)->Some_0;
    assert(new_plugins[j].manifest.name == name);
    match position_of(old_plugins, name) {
        Some(i) => {
            if j != i {
                assert(old_plugins[j].manifest.name == old_plugins[i].manifest.name);
            }
        },
        None => {
            if j < old_plugins.len() {
                assert(old_plugins[j].manifest.name == name);
            }
        },
    }
}

/// Removal law: a plugin that was unregistered is no longer found under its
/// name, and every other plugin is found as before.
pub proof fn lemma_unregistered_is_gone(
    before: PluginRegistry,
    after: PluginRegistry,
    name: Seq<char>,
    other: Seq<char>,
)
    requires
        before.wf(),
        before.has(name),
        after.plugins() == without(before.plugins(), position_of(before.plugins(), name)->Some_0),
        other != name,
    ensures
        !after.has(name),
        after.has(other) == before.has(other),
        before.has(other) ==> after.plugin(other) == before.plugin(other),
{
    before.lemma_distinct_names();
    let old_plugins = before.plugins();
    let new_plugins = after.plugins();
    let i = position_of(old_plugins, name)->Some_0;
    let last = old_plugins.len() - 1;
    assert(old_plugins[i].manifest.name == name);
    if after.has(name) {
        let j = position_of(new_plugins, name)->Some_0;
        assert(new_plugins[j].manifest.name == name);
        if j == i {
            assert(new_plugins[j] == old_plugins[last]);
        } else {
            assert(new_plugins[j] == old_plugins[j]);
        }
    }
    if before.has(other) {
        let k = position_of(old_plugins, other)->Some_0;
        assert(old_plugins[k].manifest.name == other);
        let moved = if k == last {
            i
        } else {
            k
        };
        assert(new_plugins[moved] == old_plugins[k]);
        let j = position_of(new_plugins, other)->Some_0;
        assert(new_plugins[j].manifest.name == other);
        if j == i {
            assert(new_plugins[j] == old_plugins[last]);
        } else {
            assert(new_plugins[j] == old_plugins[j]);
        }
    }
    if after.has(other) {
        let j = position_of(new_plugins, other)->Some_0;
        assert(new_plugins[j].manifest.name == other);
        if j == i {
            assert(new_plugins[j] == old_plugins[last]);
        } else {
            assert(new_plugins[j] == old_plugins[j]);
        }
    }
}

/// Capacity law: a registry that holds its maximum number of plugins refuses
/// every plugin as full, and one that holds fewer refuses none whose name is
/// new.
pub proof fn lemma_admission_boundary(registry: PluginRegistry, plugin: PluginView)
    requires
        registry.wf(),
    ensures
        registry.plugins().len() >= registry.spec_config().max_plugins ==> registry.refusal(plugin)
            == Some(ErrorView::Registry("full"@)),
        registry.plugins().len() < registry.spec_config().max_plugins && !registry.has(
            plugin.manifest.name,
        ) ==> registry.refusal(plugin) is None,
{
}

} // verus!
