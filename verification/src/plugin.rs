//! A loaded plugin: its manifest, engine, bytecode, lifecycle state and
//! counters, and the operations that the lifecycle state guards.

use vstd::prelude::*;
use crate::error::{host_error_text, outcome_view, Error, ErrorView};
use crate::host::{
    config_grants, config_has, engine_execute, engine_grants, engine_new, engine_ran,
    known_capability, nothing_ran, value_text,
};
use crate::lifecycle::{now, LifecycleState, Operation};
use crate::manifest::{Manifest, ManifestView};
use crate::text::{
    clone_opt_text, clone_texts, concat2, concat3, contains_str, join, joined, opt_text, str_eq,
    texts,
};

verus! {

/// Information about a loaded plugin.
#[derive(Debug)]
pub struct PluginInfo {
    /// Identifier of the plugin.
    pub id: u64,
    /// Plugin name from the manifest.
    pub name: String,
    /// Plugin version from the manifest.
    pub version: String,
    /// Path to the manifest file.
    pub manifest_path: Option<String>,
    /// Path to the source or bytecode file.
    pub entry_path: Option<String>,
    /// When the plugin was loaded.
    pub loaded_at: std::time::Instant,
    /// When the plugin was last reloaded.
    pub last_reload: Option<std::time::Instant>,
    /// Number of reloads.
    pub reload_count: u64,
    /// Number of invocations that were attempted.
    pub invocation_count: u64,
    /// Current lifecycle state.
    pub state: LifecycleState,
}

/// Mathematical value of a [`PluginInfo`].
pub struct PluginInfoView {
    pub id: u64,
    pub name: Seq<char>,
    pub version: Seq<char>,
    pub manifest_path: Option<Seq<char>>,
    pub entry_path: Option<Seq<char>>,
    pub loaded_at: std::time::Instant,
    pub last_reload: Option<std::time::Instant>,
    pub reload_count: u64,
    pub invocation_count: u64,
    pub state: LifecycleState,
}

impl View for PluginInfo {
    type V = PluginInfoView;

    open spec fn view(&self) -> PluginInfoView {
        PluginInfoView {
            id: self.id,
            name: self.name@,
            version: self.version@,
            manifest_path: opt_text(self.manifest_path),
            entry_path: opt_text(self.entry_path),
            loaded_at: self.loaded_at,
            last_reload: self.last_reload,
            reload_count: self.reload_count,
            invocation_count: self.invocation_count,
            state: self.state,
        }
    }
}

impl Clone for PluginInfo {
    fn clone(&self) -> (copy: PluginInfo)
        ensures
            copy@ == self@,
    {
        PluginInfo {
            id: self.id,
            name: self.name.clone(),
            version: self.version.clone(),
            manifest_path: clone_opt_text(&self.manifest_path),
            entry_path: clone_opt_text(&self.entry_path),
            loaded_at: self.loaded_at,
            last_reload: self.last_reload,
            reload_count: self.reload_count,
            invocation_count: self.invocation_count,
            state: self.state,
        }
    }
}

impl PluginInfo {
    /// The information of a plugin that was just created from a manifest:
    /// name and version of the manifest, no paths, no reload, no invocation,
    /// state `Created`.
    pub fn new(id: u64, manifest: &Manifest) -> (info: PluginInfo)
        ensures
            info@.id == id,
            info@.name == manifest@.name,
            info@.version == manifest@.version,
            info@.manifest_path is None,
            info@.entry_path is None,
            info@.last_reload is None,
            info@.reload_count == 0,
            info@.invocation_count == 0,
            info@.state == LifecycleState::Created,
    {
        PluginInfo {
            id,
            name: manifest.name.clone(),
            version: manifest.version.clone(),
            manifest_path: None,
            entry_path: None,
            loaded_at: now(),
            last_reload: None,
            reload_count: 0,
            invocation_count: 0,
            state: LifecycleState::Created,
        }
    }
}

/// The expression that invokes a function on arguments given by their
/// textual forms: the name, and in round brackets the arguments, separated by
/// a comma and a space.
pub open spec fn invocation(function: Seq<char>, args: Seq<Seq<char>>) -> Seq<char> {
    function + "("@ + joined(args, ", "@) + ")"@
}

/// Builds the expression that invokes a function on arguments given by their
/// textual forms.
pub fn call_expression(function: &str, args: &Vec<String>) -> (expression: String)
    ensures
        expression@ == invocation(function@, texts(args@)),
        expression@.len() > 0,
        expression@.last() == ')',
{
    let list = join(args, ", ");
    let mut expression = concat3(function, "(", list.as_str());
    expression.append(")");
    proof {
        reveal_strlit(")");
    }
    expression
}

/// What a call returns for an outcome of the engine: the value, or the
/// engine's failure as an execution failure.
pub fn call_outcome(outcome: Result<fusabi_host::Value, String>) -> (returned: Result<
    fusabi_host::Value,
    Error,
>)
    ensures
        match outcome {
            Ok(value) => returned == Ok::<fusabi_host::Value, Error>(value),
            Err(message) => returned is Err && returned->Err_0@ == ErrorView::ExecutionFailed(
                message@,
            ),
        },
{
    match outcome {
        Ok(value) => Ok(value),
        Err(message) => Err(Error::ExecutionFailed(message)),
    }
}

/// What a start returns for an outcome of the plugin's `init` function:
/// success, or the failure as an initialization failure.
pub fn start_outcome(outcome: Result<(), String>) -> (returned: Result<(), Error>)
    ensures
        match outcome {
            Ok(()) => returned is Ok,
            Err(message) => returned is Err && returned->Err_0@
                == ErrorView::InitializationFailed(message@),
        },
{
    match outcome {
        Ok(()) => Ok(()),
        Err(message) => Err(Error::InitializationFailed(message)),
    }
}

/// What a reload returns for an outcome of the plugin's `init` function:
/// success, or the failure as a reload failure.
pub fn reload_outcome(outcome: Result<(), String>) -> (returned: Result<(), Error>)
    ensures
        match outcome {
            Ok(()) => returned is Ok,
            Err(message) => returned is Err && returned->Err_0@ == ErrorView::ReloadFailed(
                message@,
            ),
        },
{
    match outcome {
        Ok(()) => Ok(()),
        Err(message) => Err(Error::ReloadFailed(message)),
    }
}

/// A loaded plugin.
pub struct Plugin {
    manifest: Manifest,
    info: PluginInfo,
    engine: Option<fusabi_host::Engine>,
    bytecode: Option<Vec<u8>>,
}

/// Mathematical value of a [`Plugin`]. The engine is an opaque value: two
/// plugin values with the same engine are plugins whose engine was not
/// touched between them.
pub struct PluginView {
    pub manifest: ManifestView,
    pub info: PluginInfoView,
    pub engine: Option<fusabi_host::Engine>,
    pub bytecode: Option<Seq<u8>>,
}

/// The expression that invokes a function without arguments.
pub open spec fn hook_call(name: Seq<char>) -> Seq<char> {
    invocation(name, Seq::empty())
}

impl PluginView {
    /// The lifecycle state.
    pub open spec fn state(self) -> LifecycleState {
        self.info.state
    }

    /// This plugin in another lifecycle state.
    pub open spec fn in_state(self, state: LifecycleState) -> PluginView {
        PluginView { info: PluginInfoView { state, ..self.info }, ..self }
    }

    /// Whether `after` is this plugin after its engine was asked to run
    /// `expressions`, in this order, and nothing else happened to it. Where
    /// nothing was run the engine is untouched; else the engine has run what
    /// it had run before and then `expressions`, and keeps its capabilities.
    pub open spec fn ran(self, after: PluginView, expressions: Seq<Seq<char>>) -> bool {
        &&& after.manifest == self.manifest
        &&& after.info == self.info
        &&& after.bytecode == self.bytecode
        &&& if expressions.len() == 0 {
            after.engine == self.engine
        } else {
            &&& self.engine is Some
            &&& after.engine is Some
            &&& engine_grants(after.engine->Some_0) == engine_grants(self.engine->Some_0)
            &&& engine_ran(after.engine->Some_0) == engine_ran(self.engine->Some_0) + expressions
        }
    }

    /// Whether the plugin has an engine and publishes the function `name`,
    /// so that a lifecycle step invokes it.
    pub open spec fn invokes(self, name: Seq<char>) -> bool {
        self.engine is Some && self.manifest.exports_function(name)
    }

    /// What the engine is asked to run where a lifecycle step comes to the
    /// function `name`: its invocation where the plugin invokes it, else
    /// nothing.
    pub open spec fn hook_run(self, name: Seq<char>) -> Seq<Seq<char>> {
        if self.invokes(name) {
            seq![hook_call(name)]
        } else {
            Seq::empty()
        }
    }

    /// Whether a function can be called: it is published, or it is `main`.
    pub open spec fn callable(self, function: Seq<char>) -> bool {
        self.manifest.exports_function(function) || function == "main"@
    }

    /// The error with which a plugin in this state rejects an operation that
    /// its state does not accept: an unloaded plugin says that it is
    /// unloaded, every other names the state that was expected and its own.
    pub open spec fn rejection(self, expected: Seq<char>) -> ErrorView {
        if self.state() == LifecycleState::Unloaded {
            ErrorView::PluginUnloaded
        } else {
            ErrorView::InvalidState { expected, actual: self.state().spec_name() }
        }
    }

    /// This plugin after it was unloaded: no engine, no bytecode, state
    /// `Unloaded`.
    pub open spec fn unloaded(self) -> PluginView {
        PluginView { engine: None, bytecode: None, ..self.in_state(LifecycleState::Unloaded) }
    }

    /// Whether `after` is this plugin after the clean-up that comes before an
    /// unload: a running plugin that invokes `cleanup` has run it, every
    /// other plugin is as it was.
    pub open spec fn wound_down(self, after: PluginView) -> bool {
        if self.state() == LifecycleState::Running {
            self.ran(after, self.hook_run("cleanup"@))
        } else {
            after == self
        }
    }

    /// Whether the clean-up that comes before an unload was made on this
    /// plugin: there is a plugin that this one was wound down to.
    pub open spec fn cleaned_up(self) -> bool {
        exists|cleaned: PluginView| #[trigger] self.wound_down(cleaned)
    }

    /// This plugin with one more invocation counted.
    pub open spec fn counted(self) -> PluginView {
        PluginView {
            info: PluginInfoView {
                invocation_count: (self.info.invocation_count + 1) as u64,
                ..self.info
            },
            ..self
        }
    }

    /// This plugin with one more reload counted, noted at the time `at`, and
    /// in the state `state`.
    pub open spec fn recounted(self, at: std::time::Instant, state: LifecycleState) -> PluginView {
        PluginView {
            info: PluginInfoView {
                state,
                last_reload: Some(at),
                reload_count: (self.info.reload_count + 1) as u64,
                ..self.info
            },
            ..self
        }
    }

    /// Whether a start takes this plugin to `after` with `result`.
    ///
    /// A plugin that is not `Initialized` stays as it is and reports its
    /// state. One that invokes no `init` becomes `Running`, its engine
    /// untouched. One that invokes `init` has its engine run `init()`; it
    /// becomes `Running` where that succeeds and stays `Initialized` with an
    /// initialization failure where it fails.
    pub open spec fn started(self, after: PluginView, result: Result<(), ErrorView>) -> bool {
        &&& after.state() == self.state().next(Operation::Start, result is Ok)
        &&& self.state() != LifecycleState::Initialized ==> after == self && result == Err::<
            (),
            ErrorView,
        >(self.rejection("Initialized"@))
        &&& self.state() == LifecycleState::Initialized ==> match result {
            Ok(()) => self.in_state(LifecycleState::Running).ran(after, self.hook_run("init"@)),
            Err(e) => self.invokes("init"@) && e is InitializationFailed && self.ran(
                after,
                self.hook_run("init"@),
            ),
        }
    }

    /// Whether a stop takes this plugin to `after` with `result`.
    ///
    /// A plugin that is not `Running` stays as it is and reports its state.
    /// A running plugin becomes `Stopped`; where it invokes `cleanup` its
    /// engine has run `cleanup()`, else its engine is untouched.
    pub open spec fn stopped(self, after: PluginView, result: Result<(), ErrorView>) -> bool {
        &&& after.state() == self.state().next(Operation::Stop, result is Ok)
        &&& self.state() != LifecycleState::Running ==> after == self && result == Err::<
            (),
            ErrorView,
        >(self.rejection("Running"@))
        &&& self.state() == LifecycleState::Running ==> result is Ok && self.in_state(
            LifecycleState::Stopped,
        ).ran(after, self.hook_run("cleanup"@))
    }

    /// What the engine is asked to run by a reload: of a running plugin
    /// `cleanup()` and then `init()`, each where the plugin invokes it; of
    /// every other plugin nothing.
    pub open spec fn reload_run(self) -> Seq<Seq<char>> {
        if self.state() == LifecycleState::Running {
            self.hook_run("cleanup"@) + self.hook_run("init"@)
        } else {
            Seq::empty()
        }
    }

    /// Whether a reload takes this plugin to `after` with `result`.
    ///
    /// An unloaded plugin stays as it is and reports that it is unloaded.
    /// Every other plugin has the reload counted and its time noted, and
    /// becomes `Initialized`, or `Running` again where it ran and could be
    /// restarted. Only a plugin that ran and invokes `init` can fail to
    /// restart; it then reports a reload failure. The engine is asked to run
    /// what [`PluginView::reload_run`] says, and nothing else.
    pub open spec fn reloaded(self, after: PluginView, result: Result<(), ErrorView>) -> bool {
        &&& after.state() == self.state().next(Operation::Reload, result is Ok)
        &&& self.state() == LifecycleState::Unloaded ==> after == self && result == Err::<
            (),
            ErrorView,
        >(ErrorView::PluginUnloaded)
        &&& self.state() != LifecycleState::Unloaded ==> after.info.last_reload is Some
            && self.recounted(after.info.last_reload->Some_0, after.state()).ran(
            after,
            self.reload_run(),
        )
        &&& self.state() != LifecycleState::Unloaded && !(self.state() == LifecycleState::Running
            && self.invokes("init"@)) ==> result is Ok
        &&& self.state() != LifecycleState::Unloaded && result is Err ==> result->Err_0
            is ReloadFailed
    }

    /// Whether a call of `function` on `arity` arguments takes this plugin to
    /// `after` with `result`.
    ///
    /// The plugin, its engine included, stays as it is unless it is
    /// `Running`, the function is callable and an engine is present; the
    /// first of these that fails is reported. Otherwise the invocation is
    /// counted and the engine is asked to run the invocation of the function
    /// on the textual forms of the arguments, once; its failure is an
    /// execution failure.
    pub open spec fn called(
        self,
        after: PluginView,
        function: Seq<char>,
        arity: nat,
        result: Result<fusabi_host::Value, ErrorView>,
    ) -> bool {
        &&& after.state() == self.state()
        &&& self.state() != LifecycleState::Running ==> after == self && result == Err::<
            fusabi_host::Value,
            ErrorView,
        >(self.rejection("Running"@))
        &&& self.state() == LifecycleState::Running && !self.callable(function) ==> after == self
            && result == Err::<fusabi_host::Value, ErrorView>(
            ErrorView::FunctionNotFound(function),
        )
        &&& self.state() == LifecycleState::Running && self.callable(function) && self.engine
            is None ==> after == self && result == Err::<fusabi_host::Value, ErrorView>(
            ErrorView::InvalidState { expected: "engine initialized"@, actual: "no engine"@ },
        )
        &&& self.state() == LifecycleState::Running && self.callable(function) && self.engine
            is Some ==> (result is Err ==> result->Err_0 is ExecutionFailed) && exists|
            arguments: Seq<Seq<char>>,
        |
            arguments.len() == arity && self.counted().ran(
                after,
                seq![#[trigger] invocation(function, arguments)],
            )
    }

    /// Whether `i` is the position of the first declared capability that is
    /// unknown to the host or that `grants` does not hold.
    pub open spec fn first_refused_at(self, grants: Set<Seq<char>>, i: int) -> bool {
        &&& 0 <= i < self.manifest.capabilities.len()
        &&& !known_capability(self.manifest.capabilities[i]) || !grants.contains(
            self.manifest.capabilities[i],
        )
        &&& forall|k: int|
            0 <= k < i ==> known_capability(#[trigger] self.manifest.capabilities[k])
                && grants.contains(self.manifest.capabilities[k])
    }

    /// Whether every declared capability is known to the host and held by
    /// `grants`.
    pub open spec fn all_granted(self, grants: Set<Seq<char>>) -> bool {
        forall|k: int|
            0 <= k < self.manifest.capabilities.len() ==> known_capability(
                #[trigger] self.manifest.capabilities[k],
            ) && grants.contains(self.manifest.capabilities[k])
    }

    /// Whether initialization goes as far as building an engine: the state
    /// accepts it and every declared capability is granted.
    pub open spec fn admits_initialize(self, grants: Set<Seq<char>>) -> bool {
        self.state().accepts(Operation::Initialize) && self.all_granted(grants)
    }

    /// Whether `after` is this plugin after it was given a new engine: it is
    /// `Initialized` and holds an engine that was built with `grants` and
    /// has run nothing yet.
    pub open spec fn equipped(self, grants: Set<Seq<char>>, after: PluginView) -> bool {
        &&& after.engine is Some
        &&& engine_grants(after.engine->Some_0) == grants
        &&& engine_ran(after.engine->Some_0) == nothing_ran()
        &&& after == (PluginView {
            engine: after.engine,
            ..self.in_state(LifecycleState::Initialized)
        })
    }

    /// Whether an initialization with an engine configuration that grants
    /// `grants` takes this plugin to `after` with `result`.
    ///
    /// A plugin whose state does not accept it, or that declares a
    /// capability that is unknown or not granted, stays as it is and reports
    /// the first of these. Else the engine decides: the plugin holds a new
    /// engine, built with `grants`, and is `Initialized`, or it stays as it
    /// is and reports an initialization failure.
    pub open spec fn initialized(
        self,
        grants: Set<Seq<char>>,
        after: PluginView,
        result: Result<(), ErrorView>,
    ) -> bool {
        &&& after.state() == self.state().next(Operation::Initialize, result is Ok)
        &&& !self.admits_initialize(grants) ==> after == self && result is Err
            && self.initialize_refused_with(grants, result->Err_0)
        &&& self.admits_initialize(grants) ==> match result {
            Ok(()) => self.equipped(grants, after),
            Err(e) => e is InitializationFailed && after == self,
        }
    }

    /// Whether `e` is the error with which initialization is refused before
    /// an engine is built: the state, or else the first declared capability
    /// that is unknown or not granted.
    pub open spec fn initialize_refused_with(self, grants: Set<Seq<char>>, e: ErrorView) -> bool {
        if !self.state().accepts(Operation::Initialize) {
            e == self.rejection("Created or Stopped"@)
        } else {
            exists|i: int|
                self.first_refused_at(grants, i) && e == if !known_capability(
                    self.manifest.capabilities[i],
                ) {
                    ErrorView::InvalidManifest(
                        "unknown capability: "@ + self.manifest.capabilities[i],
                    )
                } else {
                    ErrorView::MissingCapability(self.manifest.capabilities[i])
                }
        }
    }
}

/// Runs an expression on the engine and turns a failure into its text. The
/// engine has then been asked to run this expression, once, after what it
/// had run before.
fn run(engine: &mut fusabi_host::Engine, expression: &str) -> (outcome: Result<
    fusabi_host::Value,
    String,
>)
    requires
        expression@.len() > 0,
        expression@.last() == ')',
    ensures
        engine_ran(*final(engine)) == engine_ran(*old(engine)).push(expression@),
        engine_grants(*final(engine)) == engine_grants(*old(engine)),
{
    match engine_execute(engine, expression) {
        Ok(value) => Ok(value),
        Err(e) => Err(host_error_text(&e)),
    }
}

/// Runs the function `name` of the plugin, which takes no argument and gives
/// nothing that is used, and turns a failure into its text. The engine has
/// then been asked to run the invocation of the function, once, after what
/// it had run before.
fn run_hook(engine: &mut fusabi_host::Engine, name: &str) -> (outcome: Result<(), String>)
    ensures
        engine_ran(*final(engine)) == engine_ran(*old(engine)).push(hook_call(name@)),
        engine_grants(*final(engine)) == engine_grants(*old(engine)),
{
    let expression = call_expression(name, &Vec::new());
    proof {
        assert(texts(Seq::<String>::empty()) =~= Seq::<Seq<char>>::empty());
    }
    match run(engine, expression.as_str()) {
        Ok(_) => Ok(()),
        Err(message) => Err(message),
    }
}

impl View for Plugin {
    type V = PluginView;

    closed spec fn view(&self) -> PluginView {
        PluginView {
            manifest: self.manifest@,
            info: self.info@,
            engine: self.engine,
            bytecode: match self.bytecode {
                Some(bytes) => Some(bytes@),
                None => None,
            },
        }
    }
}

impl Plugin {
    /// A plugin with the given identifier, created from a manifest: no
    /// engine, no bytecode, state `Created`.
    pub fn new(id: u64, manifest: Manifest) -> (plugin: Plugin)
        ensures
            plugin@.manifest == manifest@,
            plugin@.info.id == id,
            plugin@.info.name == manifest@.name,
            plugin@.info.version == manifest@.version,
            plugin@.info.manifest_path is None,
            plugin@.info.entry_path is None,
            plugin@.info.last_reload is None,
            plugin@.info.reload_count == 0,
            plugin@.info.invocation_count == 0,
            plugin@.info.state == LifecycleState::Created,
            plugin@.engine is None,
            plugin@.bytecode is None,
    {
        let info = PluginInfo::new(id, &manifest);
        Plugin { manifest, info, engine: None, bytecode: None }
    }

    /// The identifier of the plugin.
    pub fn id(&self) -> (id: u64)
        ensures
            id == self@.info.id,
    {
        self.info.id
    }

    /// The name of the plugin.
    pub fn name(&self) -> (name: String)
        ensures
            name@ == self@.manifest.name,
    {
        self.manifest.name.clone()
    }

    /// The version of the plugin.
    pub fn version(&self) -> (version: String)
        ensures
            version@ == self@.manifest.version,
    {
        self.manifest.version.clone()
    }

    /// A copy of the manifest.
    pub fn manifest(&self) -> (manifest: Manifest)
        ensures
            manifest@ == self@.manifest,
    {
        self.manifest.clone()
    }

    /// A copy of the plugin information.
    pub fn info(&self) -> (info: PluginInfo)
        ensures
            info@ == self@.info,
    {
        self.info.clone()
    }

    /// The current lifecycle state.
    pub fn state(&self) -> (state: LifecycleState)
        ensures
            state == self@.state(),
    {
        self.info.state
    }

    /// Whether the plugin publishes a function.
    pub fn has_export(&self, name: &str) -> (exported: bool)
        ensures
            exported == self@.manifest.exports_function(name@),
    {
        contains_str(self.manifest.exports.as_slice(), name)
    }

    /// Whether the manifest of the plugin has a tag.
    pub fn has_tag(&self, tag: &str) -> (tagged: bool)
        ensures
            tagged == self@.manifest.tags.contains(tag@),
    {
        contains_str(self.manifest.tags.as_slice(), tag)
    }

    /// The names of the published functions.
    pub fn exports(&self) -> (exports: Vec<String>)
        ensures
            texts(exports@) == self@.manifest.exports,
    {
        clone_texts(&self.manifest.exports)
    }

    /// Whether the plugin needs a capability.
    pub fn requires_capability(&self, cap: &str) -> (required: bool)
        ensures
            required == self@.manifest.requires_capability(cap@),
    {
        self.manifest.requires_capability(cap)
    }

    /// Stores the compiled bytecode.
    pub fn set_bytecode(&mut self, bytecode: Vec<u8>)
        ensures
            final(self)@ == (PluginView { bytecode: Some(bytecode@), ..old(self)@ }),
    {
        self.bytecode = Some(bytecode);
    }

    /// Puts the plugin into the given lifecycle state, whatever its state
    /// was: the state graph is not consulted, and nothing else changes. This
    /// is how a host marks a plugin as failed.
    pub fn set_state(&mut self, state: LifecycleState)
        ensures
            final(self)@ == old(self)@.in_state(state),
    {
        self.info.state = state;
    }

    /// A copy of the compiled bytecode, if there is one.
    pub fn bytecode(&self) -> (bytecode: Option<Vec<u8>>)
        ensures
            match bytecode {
                Some(bytes) => self@.bytecode == Some(bytes@),
                None => self@.bytecode is None,
            },
    {
        match &self.bytecode {
            Some(bytes) => Some(bytes.clone()),
            None => None,
        }
    }
}

impl Plugin {
    /// Invokes the function `name` of the plugin, which a lifecycle step
    /// calls, where the plugin publishes it and has an engine. Gives the
    /// outcome of the invocation, or nothing where none was made.
    fn invoke_hook(&mut self, name: &str) -> (outcome: Option<Result<(), String>>)
        ensures
            old(self)@.ran(final(self)@, old(self)@.hook_run(name@)),
            outcome is Some <==> old(self)@.invokes(name@),
    {
        if !contains_str(self.manifest.exports.as_slice(), name) {
            return None;
        }
        match &mut self.engine {
            Some(engine) => {
                let outcome = run_hook(engine, name);
                proof {
                    let before = old(self).engine->Some_0;
                    assert(engine_ran(before).push(hook_call(name@)) =~= engine_ran(before)
                        + seq![hook_call(name@)]);
                }
                Some(outcome)
            },
            None => None,
        }
    }

    /// The error with which the plugin rejects an operation that its state
    /// does not accept.
    fn reject(&self, expected: &str) -> (e: Error)
        ensures
            e@ == self@.rejection(expected@),
    {
        if matches!(self.info.state, LifecycleState::Unloaded) {
            Error::PluginUnloaded
        } else {
            Error::invalid_state(expected, self.info.state.name())
        }
    }

    /// Initializes the plugin with an engine built from `engine_config`.
    ///
    /// The state must be `Created` or `Stopped`, and every capability that
    /// the manifest declares must be known to the host and granted by the
    /// configuration; otherwise the plugin stays as it is and the first
    /// violation is reported: by an unloaded plugin that it is unloaded. Then
    /// the engine is built from the configuration. Where that fails the
    /// plugin stays as it is and an initialization failure is reported; where
    /// it succeeds the plugin holds the engine and is `Initialized`.
    pub fn initialize(&mut self, engine_config: fusabi_host::EngineConfig) -> (initialized: Result<
        (),
        Error,
    >)
        ensures
            old(self)@.initialized(
                config_grants(engine_config),
                final(self)@,
                outcome_view(initialized),
            ),
    {
        if !matches!(self.info.state, LifecycleState::Created | LifecycleState::Stopped) {
            return Err(self.reject("Created or Stopped"));
        }
        let ghost grants = config_grants(engine_config);
        let mut i: usize = 0;
        while i < self.manifest.capabilities.len()
            invariant
                i <= self.manifest.capabilities.len(),
                *self == *old(self),
                self@.state().accepts(Operation::Initialize),
                grants == config_grants(engine_config),
                forall|k: int|
                    0 <= k < i ==> known_capability(#[trigger] self@.manifest.capabilities[k])
                        && grants.contains(self@.manifest.capabilities[k]),
            decreases self.manifest.capabilities.len() - i,
        {
            let required = self.manifest.capabilities[i].as_str();
            match config_has(&engine_config, required) {
                None => {
                    assert(self@.first_refused_at(grants, i as int));
                    return Err(Error::InvalidManifest(concat2("unknown capability: ", required)));
                },
                Some(false) => {
                    assert(self@.first_refused_at(grants, i as int));
                    return Err(Error::missing_capability(required));
                },
                Some(true) => {},
            }
            i += 1;
        }
        match engine_new(engine_config) {
            Ok(engine) => {
                self.engine = Some(engine);
                self.info.state = LifecycleState::Initialized;
                Ok(())
            },
            Err(e) => Err(Error::InitializationFailed(host_error_text(&e))),
        }
    }

    /// Starts the plugin.
    ///
    /// The state must be `Initialized`; otherwise the plugin stays as it is
    /// and reports its state, an unloaded plugin that it is unloaded. Where
    /// the plugin publishes `init`, the engine runs `init()`: a failure is
    /// reported as an initialization failure and leaves the state at
    /// `Initialized`. Otherwise the plugin is `Running`.
    pub fn start(&mut self) -> (started: Result<(), Error>)
        ensures
            old(self)@.started(final(self)@, outcome_view(started)),
    {
        if !matches!(self.info.state, LifecycleState::Initialized) {
            return Err(self.reject("Initialized"));
        }
        match self.invoke_hook("init") {
            Some(outcome) => match start_outcome(outcome) {
                Ok(()) => {},
                Err(e) => {
                    return Err(e);
                },
            },
            None => {},
        }
        self.info.state = LifecycleState::Running;
        Ok(())
    }

    /// Stops the plugin.
    ///
    /// The state must be `Running`; otherwise the plugin stays as it is and
    /// reports its state, an unloaded plugin that it is unloaded. Where the
    /// plugin publishes `cleanup`, the engine runs `cleanup()` and a failure
    /// of it is passed over. The plugin is `Stopped` in any case.
    pub fn stop(&mut self) -> (stopped: Result<(), Error>)
        ensures
            old(self)@.stopped(final(self)@, outcome_view(stopped)),
    {
        if !matches!(self.info.state, LifecycleState::Running) {
            return Err(self.reject("Running"));
        }
        let _ = self.invoke_hook("cleanup");
        self.info.state = LifecycleState::Stopped;
        Ok(())
    }

    /// Unloads the plugin, from any state.
    ///
    /// Where the plugin runs and publishes `cleanup`, the engine runs
    /// `cleanup()` and a failure of it is passed over. Then engine and
    /// bytecode are dropped and the plugin is `Unloaded`.
    pub fn unload(&mut self) -> (unloaded: Result<(), Error>)
        ensures
            unloaded is Ok,
            final(self)@ == old(self)@.unloaded(),
            old(self)@.cleaned_up(),
    {
        if matches!(self.info.state, LifecycleState::Running) {
            let _ = self.invoke_hook("cleanup");
        }
        assert(old(self)@.wound_down(self@));
        self.engine = None;
        self.bytecode = None;
        self.info.state = LifecycleState::Unloaded;
        Ok(())
    }

    /// Calls a function of the plugin.
    ///
    /// The state must be `Running`, the function must be published by the
    /// manifest or be `main`, and the plugin must have an engine; otherwise
    /// the plugin, its engine included, stays as it is and reports the first
    /// of these, an unloaded plugin that it is unloaded. Then the invocation
    /// is counted, and the engine runs the function on the textual forms of
    /// the arguments. A failure of the engine is reported as an execution
    /// failure; the invocation stays counted.
    pub fn call(&mut self, function: &str, args: &[fusabi_host::Value]) -> (returned: Result<
        fusabi_host::Value,
        Error,
    >)
        requires
            old(self)@.info.invocation_count < u64::MAX,
        ensures
            old(self)@.called(final(self)@, function@, args@.len(), outcome_view(returned)),
    {
        if !matches!(self.info.state, LifecycleState::Running) {
            return Err(self.reject("Running"));
        }
        if !contains_str(self.manifest.exports.as_slice(), function) && !str_eq(function, "main") {
            return Err(Error::FunctionNotFound(String::from_str(function)));
        }
        let mut arguments: Vec<String> = Vec::new();
        let mut i: usize = 0;
        while i < args.len()
            invariant
                i <= args.len(),
                arguments.len() == i,
            decreases args.len() - i,
        {
            arguments.push(value_text(&args[i]));
            i += 1;
        }
        let expression = call_expression(function, &arguments);
        match &mut self.engine {
            None => Err(Error::invalid_state("engine initialized", "no engine")),
            Some(engine) => {
                self.info.invocation_count = self.info.invocation_count + 1;
                let returned = call_outcome(run(engine, expression.as_str()));
                proof {
                    let before = old(self).engine->Some_0;
                    let ran = invocation(function@, texts(arguments@));
                    assert(engine_ran(before).push(ran) =~= engine_ran(before) + seq![ran]);
                    assert(texts(arguments@).len() == args@.len());
                    assert(old(self)@.counted().ran(self@, seq![ran]));
                }
                returned
            },
        }
    }

    /// Reloads the plugin.
    ///
    /// An unloaded plugin rejects the reload and stays as it is. Otherwise,
    /// where the plugin runs and publishes `cleanup`, the engine runs
    /// `cleanup()` and a failure of it is passed over; the plugin becomes
    /// `Initialized`, the time of the reload is noted and the reload is
    /// counted. A plugin that ran is then restarted: where it publishes
    /// `init`, the engine runs `init()`, and a failure of it is reported as a
    /// reload failure and leaves the plugin `Initialized`; otherwise the
    /// plugin is `Running` again.
    pub fn reload(&mut self) -> (reloaded: Result<(), Error>)
        requires
            old(self)@.info.reload_count < u64::MAX,
        ensures
            old(self)@.reloaded(final(self)@, outcome_view(reloaded)),
    {
        if matches!(self.info.state, LifecycleState::Unloaded) {
            return Err(Error::PluginUnloaded);
        }
        let was_running = matches!(self.info.state, LifecycleState::Running);
        if was_running {
            let _ = self.invoke_hook("cleanup");
        }
        self.info.state = LifecycleState::Initialized;
        self.info.last_reload = Some(now());
        self.info.reload_count = self.info.reload_count + 1;
        if was_running {
            let ghost counted = self@;
            let restarted = self.invoke_hook("init");
            proof {
                let first = old(self)@.hook_run("cleanup"@);
                let second = old(self)@.hook_run("init"@);
                assert(counted.hook_run("init"@) == second);
                if first.len() > 0 && second.len() > 0 {
                    let before = old(self).engine->Some_0;
                    assert(engine_ran(before) + first + second =~= engine_ran(before) + (first
                        + second));
                }
                assert(first + Seq::<Seq<char>>::empty() =~= first);
                assert(Seq::<Seq<char>>::empty() + second =~= second);
            }
            match restarted {
                Some(outcome) => match reload_outcome(outcome) {
                    Ok(()) => {},
                    Err(e) => {
                        return Err(e);
                    },
                },
                None => {},
            }
            self.info.state = LifecycleState::Running;
        }
        Ok(())
    }
}

/// Dispatch law: a call on a plugin that does not run fails, and leaves the
/// plugin as it is, its engine and its count of invocations included.
pub proof fn lemma_call_needs_running(
    before: PluginView,
    after: PluginView,
    function: Seq<char>,
    arity: nat,
    result: Result<fusabi_host::Value, ErrorView>,
)
    requires
        before.called(after, function, arity, result),
        before.state() != LifecycleState::Running,
    ensures
        result is Err,
        after == before,
{
}

/// The invocation of a function on no argument is its name followed by `()`.
pub proof fn lemma_invocation_without_arguments(function: Seq<char>)
    ensures
        hook_call(function) == function + "()"@,
{
    reveal_strlit("(");
    reveal_strlit(")");
    reveal_strlit("()");
    assert(joined(Seq::<Seq<char>>::empty(), ", "@) =~= Seq::<char>::empty());
    assert(function + "("@ + Seq::<char>::empty() + ")"@ =~= function + "()"@);
}

/// Invocation law: a call without arguments on a running plugin that has an
/// engine and can call the function has the engine run the function's name
/// followed by `()`, once, after what it had run before, and counts one
/// invocation; nothing else changes.
pub proof fn lemma_call_without_arguments(
    before: PluginView,
    after: PluginView,
    function: Seq<char>,
    result: Result<fusabi_host::Value, ErrorView>,
)
    requires
        before.called(after, function, 0, result),
        before.state() == LifecycleState::Running,
        before.callable(function),
        before.engine is Some,
    ensures
        before.counted().ran(after, seq![function + "()"@]),
        after.engine is Some,
        engine_ran(after.engine->Some_0) == engine_ran(before.engine->Some_0).push(
            function + "()"@,
        ),
        after.info.invocation_count == (before.info.invocation_count + 1) as u64,
{
    let arguments = choose|arguments: Seq<Seq<char>>|
        arguments.len() == 0 && before.counted().ran(
            after,
            seq![#[trigger] invocation(function, arguments)],
        );
    assert(arguments =~= Seq::<Seq<char>>::empty());
    lemma_invocation_without_arguments(function);
    let ran = function + "()"@;
    assert(engine_ran(before.engine->Some_0) + seq![ran] =~= engine_ran(
        before.engine->Some_0,
    ).push(ran));
}

/// Reload law: a reload that succeeds on a running plugin leaves it running;
/// a reload of a plugin that neither runs nor is unloaded succeeds, leaves
/// it initialized and does not touch its engine; a reload of a running
/// plugin that invokes no `init` succeeds; one that fails on a plugin that
/// is not unloaded leaves it initialized, and fails only where the plugin
/// ran and invokes `init`. In each case the reload is counted.
pub proof fn lemma_reload_outcome(
    before: PluginView,
    after: PluginView,
    result: Result<(), ErrorView>,
)
    requires
        before.reloaded(after, result),
        before.state() != LifecycleState::Unloaded,
    ensures
        result is Ok && before.state() == LifecycleState::Running ==> after.state()
            == LifecycleState::Running,
        before.state() != LifecycleState::Running ==> result is Ok && after.state()
            == LifecycleState::Initialized && after.engine == before.engine,
        before.state() == LifecycleState::Running && !before.invokes("init"@) ==> result is Ok,
        result is Err ==> after.state() == LifecycleState::Initialized && result->Err_0
            is ReloadFailed && before.state() == LifecycleState::Running && before.invokes(
            "init"@,
        ),
        after.info.reload_count == (before.info.reload_count + 1) as u64,
{
}

/// Reload boundary: an unloaded plugin rejects a reload as unloaded and
/// stays as it is; a plugin in any other state goes through with it: the
/// reload is counted and its time noted, whether it then succeeds or fails.
pub proof fn lemma_reload_boundary(
    before: PluginView,
    after: PluginView,
    result: Result<(), ErrorView>,
)
    requires
        before.reloaded(after, result),
    ensures
        before.state() == LifecycleState::Unloaded ==> after == before && result == Err::<
            (),
            ErrorView,
        >(ErrorView::PluginUnloaded),
        before.state() != LifecycleState::Unloaded ==> after.info.reload_count == (
        before.info.reload_count + 1) as u64 && after.info.last_reload is Some
            && after.state() != LifecycleState::Unloaded,
{
}

/// Entry law: `main` can be called whether or not the manifest publishes it.
/// A call of `main` without arguments on a running plugin that has an engine
/// has the engine run `main()`, once, counts one invocation and leaves the
/// plugin running; where it fails, it fails as an execution failure.
pub proof fn lemma_call_main(
    before: PluginView,
    after: PluginView,
    result: Result<fusabi_host::Value, ErrorView>,
)
    requires
        before.called(after, "main"@, 0, result),
        before.state() == LifecycleState::Running,
        before.engine is Some,
    ensures
        before.counted().ran(after, seq!["main()"@]),
        after.state() == LifecycleState::Running,
        result is Err ==> result->Err_0 is ExecutionFailed,
{
    lemma_call_without_arguments(before, after, "main"@, result);
    reveal_strlit("main");
    reveal_strlit("()");
    reveal_strlit("main()");
    assert("main"@ + "()"@ =~= "main()"@);
}

/// Grant law: an initialization of a plugin that declares a capability which
/// the engine configuration does not grant fails, and leaves the plugin as
/// it is.
pub proof fn lemma_initialize_needs_grants(
    before: PluginView,
    grants: Set<Seq<char>>,
    after: PluginView,
    result: Result<(), ErrorView>,
    i: int,
)
    requires
        before.initialized(grants, after, result),
        0 <= i < before.manifest.capabilities.len(),
        !grants.contains(before.manifest.capabilities[i]),
    ensures
        result is Err,
        after == before,
        after.state() == before.state(),
{
}

} // verus!
