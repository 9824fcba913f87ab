//! Lifecycle states of a plugin, the transition graph between them, and the
//! events and hooks that report transitions.

use vstd::prelude::*;
use crate::error::Error;

verus! {

/// Lifecycle state of a plugin.
#[derive(Debug, Clone, Copy, PartialEq, Eq, Hash, Structural)]
pub enum LifecycleState {
    /// Created but not yet initialized.
    Created,
    /// Initialized with an engine.
    Initialized,
    /// Running and accepting calls.
    Running,
    /// Stopped.
    Stopped,
    /// Unloaded; terminal.
    Unloaded,
    /// In an error state.
    Error,
}

/// Operation on a plugin that its lifecycle state guards.
#[derive(Debug, Clone, Copy, PartialEq, Eq, Structural)]
pub enum Operation {
    /// Give the plugin an engine.
    Initialize,
    /// Start the plugin.
    Start,
    /// Stop the plugin.
    Stop,
    /// Call a function of the plugin.
    Call,
    /// Reload the plugin.
    Reload,
    /// Unload the plugin.
    Unload,
}

impl LifecycleState {
    /// The name of the variant, as written in the enum.
    pub open spec fn spec_name(self) -> Seq<char> {
        match self {
            LifecycleState::Created => "Created"@,
            LifecycleState::Initialized => "Initialized"@,
            LifecycleState::Running => "Running"@,
            LifecycleState::Stopped => "Stopped"@,
            LifecycleState::Unloaded => "Unloaded"@,
            LifecycleState::Error => "Error"@,
        }
    }

    /// The lower-case name of the state.
    pub open spec fn spec_label(self) -> Seq<char> {
        match self {
            LifecycleState::Created => "created"@,
            LifecycleState::Initialized => "initialized"@,
            LifecycleState::Running => "running"@,
            LifecycleState::Stopped => "stopped"@,
            LifecycleState::Unloaded => "unloaded"@,
            LifecycleState::Error => "error"@,
        }
    }

    /// The human-readable description of the state.
    pub open spec fn spec_description(self) -> Seq<char> {
        match self {
            LifecycleState::Created => "Plugin created but not initialized"@,
            LifecycleState::Initialized => "Plugin initialized and ready to start"@,
            LifecycleState::Running => "Plugin running and accepting calls"@,
            LifecycleState::Stopped => "Plugin stopped"@,
            LifecycleState::Unloaded => "Plugin unloaded"@,
            LifecycleState::Error => "Plugin in error state"@,
        }
    }

    /// Whether the transition graph has an edge from `self` to `to`.
    pub open spec fn edge(self, to: LifecycleState) -> bool {
        match (self, to) {
            (LifecycleState::Created, LifecycleState::Initialized) => true,
            (LifecycleState::Initialized, LifecycleState::Running) => true,
            (LifecycleState::Initialized, LifecycleState::Initialized) => true,
            (LifecycleState::Running, LifecycleState::Stopped) => true,
            (LifecycleState::Running, LifecycleState::Running) => true,
            (LifecycleState::Stopped, LifecycleState::Initialized) => true,
            (LifecycleState::Error, LifecycleState::Initialized) => true,
            (LifecycleState::Initialized, LifecycleState::Unloaded) => true,
            (LifecycleState::Running, LifecycleState::Unloaded) => true,
            (LifecycleState::Stopped, LifecycleState::Unloaded) => true,
            (LifecycleState::Error, LifecycleState::Unloaded) => true,
            _ => false,
        }
    }

    /// Whether the state accepts an operation. A state that does not accept
    /// it rejects it and stays as it is.
    pub open spec fn accepts(self, op: Operation) -> bool {
        match op {
            Operation::Initialize => self == LifecycleState::Created || self
                == LifecycleState::Stopped,
            Operation::Start => self == LifecycleState::Initialized,
            Operation::Stop => self == LifecycleState::Running,
            Operation::Call => self == LifecycleState::Running,
            Operation::Reload => self != LifecycleState::Unloaded,
            Operation::Unload => true,
        }
    }

    /// The state after an operation that succeeded or failed. A rejected or
    /// failed operation leaves the state as it is, with one exception: a
    /// reload of a running plugin that fails to restart it leaves it
    /// initialized.
    pub open spec fn next(self, op: Operation, succeeded: bool) -> LifecycleState {
        if !self.accepts(op) {
            self
        } else {
            match op {
                Operation::Initialize => if succeeded {
                    LifecycleState::Initialized
                } else {
                    self
                },
                Operation::Start => if succeeded {
                    LifecycleState::Running
                } else {
                    self
                },
                Operation::Stop => LifecycleState::Stopped,
                Operation::Call => self,
                Operation::Reload => if self == LifecycleState::Running && succeeded {
                    LifecycleState::Running
                } else {
                    LifecycleState::Initialized
                },
                Operation::Unload => LifecycleState::Unloaded,
            }
        }
    }

    /// The state after an operation that succeeded or failed.
    pub fn after(&self, op: Operation, succeeded: bool) -> (state: LifecycleState)
        ensures
            state == self.next(op, succeeded),
    {
        let accepted = match op {
            Operation::Initialize => matches!(
                self,
                LifecycleState::Created | LifecycleState::Stopped
            ),
            Operation::Start => matches!(self, LifecycleState::Initialized),
            Operation::Stop => matches!(self, LifecycleState::Running),
            Operation::Call => matches!(self, LifecycleState::Running),
            Operation::Reload => !matches!(self, LifecycleState::Unloaded),
            Operation::Unload => true,
        };
        if !accepted {
            return *self;
        }
        match op {
            Operation::Initialize => if succeeded {
                LifecycleState::Initialized
            } else {
                *self
            },
            Operation::Start => if succeeded {
                LifecycleState::Running
            } else {
                *self
            },
            Operation::Stop => LifecycleState::Stopped,
            Operation::Call => *self,
            Operation::Reload => if matches!(self, LifecycleState::Running) && succeeded {
                LifecycleState::Running
            } else {
                LifecycleState::Initialized
            },
            Operation::Unload => LifecycleState::Unloaded,
        }
    }

    /// Whether the plugin can be started.
    pub fn can_start(&self) -> (b: bool)
        ensures
            b == (*self == LifecycleState::Initialized),
    {
        matches!(self, LifecycleState::Initialized)
    }

    /// Whether the plugin can be stopped.
    pub fn can_stop(&self) -> (b: bool)
        ensures
            b == (*self == LifecycleState::Running),
    {
        matches!(self, LifecycleState::Running)
    }

    /// Whether the plugin can be called.
    pub fn can_call(&self) -> (b: bool)
        ensures
            b == (*self == LifecycleState::Running),
    {
        matches!(self, LifecycleState::Running)
    }

    /// Whether the plugin can be reloaded.
    pub fn can_reload(&self) -> (b: bool)
        ensures
            b == (*self == LifecycleState::Initialized || *self == LifecycleState::Running
                || *self == LifecycleState::Stopped || *self == LifecycleState::Error),
    {
        matches!(
            self,
            LifecycleState::Initialized | LifecycleState::Running | LifecycleState::Stopped
                | LifecycleState::Error
        )
    }

    /// Whether the state is terminal.
    pub fn is_terminal(&self) -> (b: bool)
        ensures
            b == (*self == LifecycleState::Unloaded),
    {
        matches!(self, LifecycleState::Unloaded)
    }

    /// A human-readable description.
    pub fn description(&self) -> (s: &'static str)
        ensures
            s@ == self.spec_description(),
    {
        match self {
            LifecycleState::Created => "Plugin created but not initialized",
            LifecycleState::Initialized => "Plugin initialized and ready to start",
            LifecycleState::Running => "Plugin running and accepting calls",
            LifecycleState::Stopped => "Plugin stopped",
            LifecycleState::Unloaded => "Plugin unloaded",
            LifecycleState::Error => "Plugin in error state",
        }
    }

    /// The lower-case name of the state.
    pub fn to_string(&self) -> (s: String)
        ensures
            s@ == self.spec_label(),
    {
        String::from_str(
            match self {
                LifecycleState::Created => "created",
                LifecycleState::Initialized => "initialized",
                LifecycleState::Running => "running",
                LifecycleState::Stopped => "stopped",
                LifecycleState::Unloaded => "unloaded",
                LifecycleState::Error => "error",
            },
        )
    }

    /// The name of the variant.
    pub fn name(&self) -> (s: &'static str)
        ensures
            s@ == self.spec_name(),
    {
        match self {
            LifecycleState::Created => "Created",
            LifecycleState::Initialized => "Initialized",
            LifecycleState::Running => "Running",
            LifecycleState::Stopped => "Stopped",
            LifecycleState::Unloaded => "Unloaded",
            LifecycleState::Error => "Error",
        }
    }
}

/// One operation in the history of a plugin, and whether it succeeded.
pub struct Step {
    pub op: Operation,
    pub succeeded: bool,
}

/// Whether a step from `state` stays within the transition graph. Two steps
/// do not: unloading a plugin that was never initialized, and a reload of a
/// running plugin that fails to restart it.
pub open spec fn within_graph(state: LifecycleState, step: Step) -> bool {
    &&& !(step.op == Operation::Unload && state == LifecycleState::Created)
    &&& !(step.op == Operation::Reload && state == LifecycleState::Running && !step.succeeded)
}

/// The state of a plugin that was in `start` and has gone through the first
/// `k` of `steps`.
pub open spec fn state_after(start: LifecycleState, steps: Seq<Step>, k: nat) -> LifecycleState
    decreases k,
{
    if k == 0 {
        start
    } else {
        state_after(start, steps, (k - 1) as nat).next(steps[k - 1].op, steps[k - 1].succeeded)
    }
}

/// Transition law: an operation leaves the state as it is or moves it along
/// an edge of the transition graph, but for the two steps that
/// [`within_graph`] names.
pub proof fn lemma_step_follows_graph(state: LifecycleState, step: Step)
    requires
        within_graph(state, step),
    ensures
        state.next(step.op, step.succeeded) == state || state.edge(
            state.next(step.op, step.succeeded),
        ),
{
}

/// Path law: the states that a plugin goes through form a path in the
/// transition graph, each state equal to the one before it or reached from it
/// by an edge, as long as every step stays within the graph.
pub proof fn lemma_history_is_path(start: LifecycleState, steps: Seq<Step>, k: nat)
    requires
        k < steps.len(),
        within_graph(state_after(start, steps, k), steps[k as int]),
    ensures
        state_after(start, steps, k + 1) == state_after(start, steps, k) || state_after(
            start,
            steps,
            k,
        ).edge(state_after(start, steps, k + 1)),
{
    lemma_step_follows_graph(state_after(start, steps, k), steps[k as int]);
}

/// Reload law: a reload that succeeds on a running plugin leaves it running,
/// and a reload that fails leaves a plugin initialized, unless the plugin is
/// unloaded: that one rejects the reload and stays unloaded.
pub proof fn lemma_reload_states(state: LifecycleState, succeeded: bool)
    ensures
        state == LifecycleState::Running && succeeded ==> state.next(Operation::Reload, succeeded)
            == LifecycleState::Running,
        state != LifecycleState::Unloaded && !succeeded ==> state.next(
            Operation::Reload,
            succeeded,
        ) == LifecycleState::Initialized,
        state == LifecycleState::Unloaded ==> state.next(Operation::Reload, succeeded)
            == LifecycleState::Unloaded,
{
}

/// Terminal law: an unloaded plugin stays unloaded whatever is done to it,
/// and no operation but unloading succeeds on it.
pub proof fn lemma_unloaded_is_terminal(op: Operation, succeeded: bool)
    ensures
        LifecycleState::Unloaded.next(op, succeeded) == LifecycleState::Unloaded,
        op != Operation::Unload ==> !LifecycleState::Unloaded.accepts(op),
{
}

/// A reading of the monotonic clock. The library keeps such readings and
/// never looks into them.
#[verifier::external_type_specification]
#[verifier::external_body]
pub struct ExInstant(std::time::Instant);

/// Reads the monotonic clock with `std::time::Instant::now`.
#[verifier::external_body]
pub(crate) fn now() -> std::time::Instant {
    std::time::Instant::now()
}

/// Whether a value is after a call what it was before.
pub open spec fn untouched<T: ?Sized>(before: &T, after: &T) -> bool {
    before == after
}

/// Hooks that a plugin implementation may provide for the steps of its
/// lifecycle. Each hook does nothing unless it is overridden: the hooks that
/// report an outcome succeed and leave the implementation as it is. An
/// implementation that overrides a hook is free in what the hook does.
pub trait PluginLifecycle {
    /// Called when the plugin is initialized.
    fn on_init(&mut self) -> (outcome: Result<(), Error>)
        default_ensures
            outcome is Ok,
            untouched(&*old(self), &*final(self)),
    {
        Ok(())
    }

    /// Called when the plugin is started.
    fn on_start(&mut self) -> (outcome: Result<(), Error>)
        default_ensures
            outcome is Ok,
            untouched(&*old(self), &*final(self)),
    {
        Ok(())
    }

    /// Called when the plugin is stopped.
    fn on_stop(&mut self) -> (outcome: Result<(), Error>)
        default_ensures
            outcome is Ok,
            untouched(&*old(self), &*final(self)),
    {
        Ok(())
    }

    /// Called when the plugin is unloaded.
    fn on_unload(&mut self) -> (outcome: Result<(), Error>)
        default_ensures
            outcome is Ok,
            untouched(&*old(self), &*final(self)),
    {
        Ok(())
    }

    /// Called before a reload.
    fn on_before_reload(&mut self) -> (outcome: Result<(), Error>)
        default_ensures
            outcome is Ok,
            untouched(&*old(self), &*final(self)),
    {
        Ok(())
    }

    /// Called after a reload.
    fn on_after_reload(&mut self) -> (outcome: Result<(), Error>)
        default_ensures
            outcome is Ok,
            untouched(&*old(self), &*final(self)),
    {
        Ok(())
    }

    /// Called when an error occurs.
    fn on_error(&mut self, error: &Error) {
    }
}

/// Lifecycle event handed to hooks.
#[derive(Debug)]
pub enum LifecycleEvent {
    /// Plugin was created.
    Created {
        /// Plugin name.
        name: String,
        /// Creation time.
        at: std::time::Instant,
    },
    /// Plugin was initialized.
    Initialized {
        /// Plugin name.
        name: String,
        /// Initialization time.
        at: std::time::Instant,
    },
    /// Plugin was started.
    Started {
        /// Plugin name.
        name: String,
        /// Start time.
        at: std::time::Instant,
    },
    /// Plugin was stopped.
    Stopped {
        /// Plugin name.
        name: String,
        /// Stop time.
        at: std::time::Instant,
    },
    /// Plugin was reloaded.
    Reloaded {
        /// Plugin name.
        name: String,
        /// Reload time.
        at: std::time::Instant,
        /// Number of reloads so far.
        count: u64,
    },
    /// Plugin was unloaded.
    Unloaded {
        /// Plugin name.
        name: String,
        /// Unload time.
        at: std::time::Instant,
    },
    /// Plugin encountered an error.
    Error {
        /// Plugin name.
        name: String,
        /// Error message.
        message: String,
        /// Error time.
        at: std::time::Instant,
    },
}

/// Mathematical value of a [`LifecycleEvent`].
pub enum LifecycleEventView {
    Created { name: Seq<char>, at: std::time::Instant },
    Initialized { name: Seq<char>, at: std::time::Instant },
    Started { name: Seq<char>, at: std::time::Instant },
    Stopped { name: Seq<char>, at: std::time::Instant },
    Reloaded { name: Seq<char>, at: std::time::Instant, count: u64 },
    Unloaded { name: Seq<char>, at: std::time::Instant },
    Error { name: Seq<char>, message: Seq<char>, at: std::time::Instant },
}

impl LifecycleEventView {
    /// The name of the plugin that the event is about.
    pub open spec fn plugin_name(self) -> Seq<char> {
        match self {
            LifecycleEventView::Created { name, .. } => name,
            LifecycleEventView::Initialized { name, .. } => name,
            LifecycleEventView::Started { name, .. } => name,
            LifecycleEventView::Stopped { name, .. } => name,
            LifecycleEventView::Reloaded { name, .. } => name,
            LifecycleEventView::Unloaded { name, .. } => name,
            LifecycleEventView::Error { name, .. } => name,
        }
    }

    /// The time of the event.
    pub open spec fn timestamp(self) -> std::time::Instant {
        match self {
            LifecycleEventView::Created { at, .. } => at,
            LifecycleEventView::Initialized { at, .. } => at,
            LifecycleEventView::Started { at, .. } => at,
            LifecycleEventView::Stopped { at, .. } => at,
            LifecycleEventView::Reloaded { at, .. } => at,
            LifecycleEventView::Unloaded { at, .. } => at,
            LifecycleEventView::Error { at, .. } => at,
        }
    }

    /// The name of the kind of event.
    pub open spec fn event_name(self) -> Seq<char> {
        match self {
            LifecycleEventView::Created { .. } => "created"@,
            LifecycleEventView::Initialized { .. } => "initialized"@,
            LifecycleEventView::Started { .. } => "started"@,
            LifecycleEventView::Stopped { .. } => "stopped"@,
            LifecycleEventView::Reloaded { .. } => "reloaded"@,
            LifecycleEventView::Unloaded { .. } => "unloaded"@,
            LifecycleEventView::Error { .. } => "error"@,
        }
    }
}

impl View for LifecycleEvent {
    type V = LifecycleEventView;

    open spec fn view(&self) -> LifecycleEventView {
        match *self {
            LifecycleEvent::Created { name, at } => LifecycleEventView::Created { name: name@, at },
            LifecycleEvent::Initialized { name, at } => LifecycleEventView::Initialized {
                name: name@,
                at,
            },
            LifecycleEvent::Started { name, at } => LifecycleEventView::Started { name: name@, at },
            LifecycleEvent::Stopped { name, at } => LifecycleEventView::Stopped { name: name@, at },
            LifecycleEvent::Reloaded { name, at, count } => LifecycleEventView::Reloaded {
                name: name@,
                at,
                count,
            },
            LifecycleEvent::Unloaded { name, at } => LifecycleEventView::Unloaded {
                name: name@,
                at,
            },
            LifecycleEvent::Error { name, message, at } => LifecycleEventView::Error {
                name: name@,
                message: message@,
                at,
            },
        }
    }
}

impl Clone for LifecycleEvent {
    fn clone(&self) -> (copy: LifecycleEvent)
        ensures
            copy@ == self@,
    {
        match self {
            LifecycleEvent::Created { name, at } => LifecycleEvent::Created {
                name: name.clone(),
                at: *at,
            },
            LifecycleEvent::Initialized { name, at } => LifecycleEvent::Initialized {
                name: name.clone(),
                at: *at,
            },
            LifecycleEvent::Started { name, at } => LifecycleEvent::Started {
                name: name.clone(),
                at: *at,
            },
            LifecycleEvent::Stopped { name, at } => LifecycleEvent::Stopped {
                name: name.clone(),
                at: *at,
            },
            LifecycleEvent::Reloaded { name, at, count } => LifecycleEvent::Reloaded {
                name: name.clone(),
                at: *at,
                count: *count,
            },
            LifecycleEvent::Unloaded { name, at } => LifecycleEvent::Unloaded {
                name: name.clone(),
                at: *at,
            },
            LifecycleEvent::Error { name, message, at } => LifecycleEvent::Error {
                name: name.clone(),
                message: message.clone(),
                at: *at,
            },
        }
    }
}

impl LifecycleEvent {
    /// The name of the plugin that the event is about.
    pub fn plugin_name(&self) -> (name: &str)
        ensures
            name@ == self@.plugin_name(),
    {
        match self {
            LifecycleEvent::Created { name, .. } => name.as_str(),
            LifecycleEvent::Initialized { name, .. } => name.as_str(),
            LifecycleEvent::Started { name, .. } => name.as_str(),
            LifecycleEvent::Stopped { name, .. } => name.as_str(),
            LifecycleEvent::Reloaded { name, .. } => name.as_str(),
            LifecycleEvent::Unloaded { name, .. } => name.as_str(),
            LifecycleEvent::Error { name, .. } => name.as_str(),
        }
    }

    /// The time of the event.
    pub fn timestamp(&self) -> (at: std::time::Instant)
        ensures
            at == self@.timestamp(),
    {
        match self {
            LifecycleEvent::Created { at, .. } => *at,
            LifecycleEvent::Initialized { at, .. } => *at,
            LifecycleEvent::Started { at, .. } => *at,
            LifecycleEvent::Stopped { at, .. } => *at,
            LifecycleEvent::Reloaded { at, .. } => *at,
            LifecycleEvent::Unloaded { at, .. } => *at,
            LifecycleEvent::Error { at, .. } => *at,
        }
    }

    /// The name of the kind of event.
    pub fn event_name(&self) -> (name: &'static str)
        ensures
            name@ == self@.event_name(),
    {
        match self {
            LifecycleEvent::Created { .. } => "created",
            LifecycleEvent::Initialized { .. } => "initialized",
            LifecycleEvent::Started { .. } => "started",
            LifecycleEvent::Stopped { .. } => "stopped",
            LifecycleEvent::Reloaded { .. } => "reloaded",
            LifecycleEvent::Unloaded { .. } => "unloaded",
            LifecycleEvent::Error { .. } => "error",
        }
    }
}

/// A subscriber of lifecycle events.
trait EventSink: Send + Sync {
    /// Whether the subscriber has taken an event: what it promises of an
    /// event that is handed to it holds of this event.
    spec fn took(&self, event: &LifecycleEvent) -> bool;

    /// Takes an event.
    fn take(&self, event: &LifecycleEvent)
        ensures
            self.took(event),
    ;
}

/// A subscriber that is a callback. The callback accepts every event.
struct CallbackSink<F: Fn(&LifecycleEvent) + Send + Sync + 'static> {
    callback: F,
}

impl<F: Fn(&LifecycleEvent) + Send + Sync + 'static> CallbackSink<F> {
    #[verifier::type_invariant]
    spec fn accepts_every_event(self) -> bool {
        forall|event: &LifecycleEvent| call_requires(self.callback, (event,))
    }

    fn new(callback: F) -> (sink: Self)
        requires
            forall|event: &LifecycleEvent| call_requires(callback, (event,)),
        ensures
            sink.callback == callback,
    {
        CallbackSink { callback }
    }
}

impl<F: Fn(&LifecycleEvent) + Send + Sync + 'static> EventSink for CallbackSink<F> {
    closed spec fn took(&self, event: &LifecycleEvent) -> bool {
        call_ensures(self.callback, (event,), ())
    }

    fn take(&self, event: &LifecycleEvent) {
        proof {
            use_type_invariant(self);
        }
        (self.callback)(event)
    }
}

/// A subscriber as the hooks hold it.
struct Subscriber<S: ?Sized> {
    sink: Box<S>,
}

impl<S: ?Sized> Subscriber<S> {
    fn new(sink: Box<S>) -> (subscriber: Self)
        ensures
            subscriber.sink == sink,
    {
        Subscriber { sink }
    }
}

/// Hooks for lifecycle events: the subscribers in the order of subscription.
pub struct LifecycleHooks {
    handlers: Vec<Subscriber<dyn EventSink>>,
}

impl LifecycleHooks {
    /// The number of subscribers.
    pub closed spec fn handler_count(&self) -> nat {
        self.handlers@.len()
    }

    /// Whether every subscriber has taken an event: what each subscriber
    /// promises of an event that is handed to it holds of this event.
    pub closed spec fn delivered(&self, event: LifecycleEvent) -> bool {
        forall|i: int|
            0 <= i < self.handlers@.len() ==> (#[trigger] self.handlers@[i]).sink.took(&event)
    }

    /// Hooks without subscribers.
    pub fn new() -> (hooks: LifecycleHooks)
        ensures
            hooks.handler_count() == 0,
            forall|event: LifecycleEvent| hooks.delivered(event),
    {
        LifecycleHooks { handlers: Vec::new() }
    }

    /// Adds a subscriber after those already there.
    fn subscribe(&mut self, subscriber: Subscriber<dyn EventSink>)
        ensures
            final(self).handler_count() == old(self).handler_count() + 1,
            forall|event: LifecycleEvent|
                #[trigger] final(self).delivered(event) == (old(self).delivered(event)
                    && subscriber.sink.took(&event)),
    {
        self.handlers.push(subscriber);
        assert forall|event: LifecycleEvent|
            #[trigger] self.delivered(event) == (old(self).delivered(event)
                && subscriber.sink.took(&event)) by {
            if self.delivered(event) {
                assert forall|i: int| 0 <= i < old(self).handlers@.len() implies (
                #[trigger] old(self).handlers@[i]).sink.took(&event) by {
                    assert(self.handlers@[i] == old(self).handlers@[i]);
                }
                assert(self.handlers@[old(self).handlers@.len() as int] == subscriber);
            }
        }
    }

    /// Adds a subscriber after those already there. The subscriber must
    /// accept every event. From then on an event is delivered when the
    /// subscribers before have taken it and the new one has too.
    pub fn on_event<F>(&mut self, handler: F) where F: Fn(&LifecycleEvent) + Send + Sync + 'static
        requires
            forall|event: &LifecycleEvent| call_requires(handler, (event,)),
        ensures
            final(self).handler_count() == old(self).handler_count() + 1,
            forall|event: LifecycleEvent|
                #[trigger] final(self).delivered(event) == (old(self).delivered(event)
                    && call_ensures(handler, (&event,), ())),
    {
        let callback = CallbackSink::new(handler);
        let sink: Box<dyn EventSink> = Box::new(callback);
        let subscriber = Subscriber::new(sink);
        self.subscribe(subscriber);
    }

    /// Hands an event to every subscriber, in the order of subscription.
    pub fn emit(&self, event: LifecycleEvent)
        ensures
            self.delivered(event),
    {
        let mut i: usize = 0;
        while i < self.handlers.len()
            invariant
                i <= self.handlers.len(),
                forall|k: int| 0 <= k < i ==> (#[trigger] self.handlers@[k]).sink.took(&event),
            decreases self.handlers.len() - i,
        {
            self.handlers[i].sink.take(&event);
            i += 1;
        }
    }

    /// Emits a created event.
    pub fn emit_created(&self, name: &str)
        ensures
            exists|sent: LifecycleEvent|
                #[trigger] self.delivered(sent) && sent@ is Created && sent@.plugin_name() == name@,
    {
        let event = LifecycleEvent::Created { name: String::from_str(name), at: now() };
        self.emit(event);
    }

    /// Emits an initialized event.
    pub fn emit_initialized(&self, name: &str)
        ensures
            exists|sent: LifecycleEvent|
                #[trigger] self.delivered(sent) && sent@ is Initialized && sent@.plugin_name()
                    == name@,
    {
        let event = LifecycleEvent::Initialized { name: String::from_str(name), at: now() };
        self.emit(event);
    }

    /// Emits a started event.
    pub fn emit_started(&self, name: &str)
        ensures
            exists|sent: LifecycleEvent|
                #[trigger] self.delivered(sent) && sent@ is Started && sent@.plugin_name() == name@,
    {
        let event = LifecycleEvent::Started { name: String::from_str(name), at: now() };
        self.emit(event);
    }

    /// Emits a stopped event.
    pub fn emit_stopped(&self, name: &str)
        ensures
            exists|sent: LifecycleEvent|
                #[trigger] self.delivered(sent) && sent@ is Stopped && sent@.plugin_name() == name@,
    {
        let event = LifecycleEvent::Stopped { name: String::from_str(name), at: now() };
        self.emit(event);
    }

    /// Emits a reloaded event.
    pub fn emit_reloaded(&self, name: &str, count: u64)
        ensures
            exists|sent: LifecycleEvent|
                #[trigger] self.delivered(sent) && sent@ is Reloaded && sent@.plugin_name() == name@
                    && sent@->count == count,
    {
        let event = LifecycleEvent::Reloaded { name: String::from_str(name), at: now(), count };
        self.emit(event);
    }

    /// Emits an unloaded event.
    pub fn emit_unloaded(&self, name: &str)
        ensures
            exists|sent: LifecycleEvent|
                #[trigger] self.delivered(sent) && sent@ is Unloaded && sent@.plugin_name()
                    == name@,
    {
        let event = LifecycleEvent::Unloaded { name: String::from_str(name), at: now() };
        self.emit(event);
    }

    /// Emits an error event.
    pub fn emit_error(&self, name: &str, message: &str)
        ensures
            exists|sent: LifecycleEvent|
                #[trigger] self.delivered(sent) && sent@ is Error && sent@.plugin_name() == name@
                    && sent@->message == message@,
    {
        let event = LifecycleEvent::Error {
            name: String::from_str(name),
            message: String::from_str(message),
            at: now(),
        };
        self.emit(event);
    }
}

impl Default for LifecycleHooks {
    fn default() -> (hooks: LifecycleHooks)
        ensures
            hooks.handler_count() == 0,
    {
        LifecycleHooks::new()
    }
}

} // verus!
